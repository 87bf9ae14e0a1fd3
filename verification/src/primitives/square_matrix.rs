//! A matrix of scalars, row by row, and the layouts of the affine transforms.

use vstd::prelude::*;
use crate::primitives::scalar::Scalar;
use crate::primitives::scalar::ONE_BITS;
use crate::primitives::arithmetic::Unit;
use crate::primitives::arithmetic::sound;
use crate::primitives::arithmetic::sum;
use crate::primitives::arithmetic::difference;
use crate::primitives::arithmetic::product;
use crate::primitives::arithmetic::quotient;
use crate::primitives::arithmetic::cosine;
use crate::primitives::arithmetic::sine;
use crate::primitives::arithmetic::near;
use crate::primitives::arithmetic::plus;
use crate::primitives::arithmetic::minus;
use crate::primitives::arithmetic::times;
use crate::primitives::arithmetic::over;
use crate::primitives::arithmetic::approx_eq;
use crate::primitives::point::Point;
use crate::primitives::vector::Vector;

verus! {

/// Why a transform could not be inverted.
#[derive(Clone, Copy, Debug, PartialEq, Eq, Structural)]
pub enum TransformError {
    /// The determinant is zero.
    Degenerate,
}

#[derive(Debug)]
pub struct SquareMatrix {
    elements: Vec<Vec<Scalar>>,
}

/// The rows of a nested vector as sequences.
pub open spec fn rows_of(rows: Seq<Vec<Scalar>>) -> Seq<Seq<Scalar>> {
    Seq::new(rows.len(), |i: int| rows[i]@)
}

/// Every row is as long as there are rows.
pub open spec fn is_square_grid(grid: Seq<Seq<Scalar>>) -> bool {
    forall|i: int| 0 <= i < grid.len() ==> (#[trigger] grid[i]).len() == grid.len()
}

/// The grid with the entry at (`row`, `col`) replaced.
pub open spec fn with_entry(grid: Seq<Seq<Scalar>>, row: int, col: int, value: Scalar) -> Seq<
    Seq<Scalar>,
> {
    grid.update(row, grid[row].update(col, value))
}

/// The grid after each of `entries` was written in turn, a later entry
/// overwriting an earlier one at the same place.
pub open spec fn with_entries(grid: Seq<Seq<Scalar>>, entries: Seq<(usize, usize, Scalar)>) -> Seq<
    Seq<Scalar>,
>
    decreases entries.len(),
{
    if entries.len() == 0 {
        grid
    } else {
        let last = entries.last();
        with_entry(with_entries(grid, entries.drop_last()), last.0 as int, last.1 as int, last.2)
    }
}

/// Every entry names a place inside a grid of `size` rows and columns.
pub open spec fn entries_fit(entries: Seq<(usize, usize, Scalar)>, size: int) -> bool {
    forall|k: int|
        0 <= k < entries.len() ==> (#[trigger] entries[k]).0 < size && entries[k].1 < size
}

/// The number zero.
pub open spec fn zero() -> Scalar {
    Scalar { bits: 0 }
}

/// The number one.
pub open spec fn one() -> Scalar {
    Scalar { bits: ONE_BITS }
}

/// The identity of `size` rows: one on the diagonal, zero elsewhere.
pub open spec fn identity_grid(size: int) -> Seq<Seq<Scalar>> {
    Seq::new(
        size as nat,
        |i: int| Seq::new(size as nat, |j: int| if i == j { one() } else { zero() }),
    )
}

/// Rows and columns exchanged.
pub open spec fn transposed(grid: Seq<Seq<Scalar>>) -> Seq<Seq<Scalar>> {
    Seq::new(grid.len(), |i: int| Seq::new(grid.len(), |j: int| grid[j][i]))
}

/// The grid without row `row` and column `col`.
pub open spec fn without(grid: Seq<Seq<Scalar>>, row: int, col: int) -> Seq<Seq<Scalar>> {
    Seq::new(
        (grid.len() - 1) as nat,
        |i: int|
            Seq::new(
                (grid.len() - 1) as nat,
                |j: int| grid[if i < row { i } else { i + 1 }][if j < col { j } else { j + 1 }],
            ),
    )
}

/// A minor with the sign of its place: negated where row and column add up
/// to an odd number.
pub open spec fn signed_minor(row: int, col: int, minor: Scalar) -> Scalar {
    if (row + col) % 2 == 1 {
        minor.negated()
    } else {
        minor
    }
}

/// Four rows of four entries.
pub open spec fn grid4(
    r0: (Scalar, Scalar, Scalar, Scalar),
    r1: (Scalar, Scalar, Scalar, Scalar),
    r2: (Scalar, Scalar, Scalar, Scalar),
    r3: (Scalar, Scalar, Scalar, Scalar),
) -> Seq<Seq<Scalar>> {
    seq![
        seq![r0.0, r0.1, r0.2, r0.3],
        seq![r1.0, r1.1, r1.2, r1.3],
        seq![r2.0, r2.1, r2.2, r2.3],
        seq![r3.0, r3.1, r3.2, r3.3],
    ]
}

/// The transform that moves a point by (x, y, z): the identity with the
/// offsets in the fourth column, where only a fourth coordinate of one
/// picks them up.
pub open spec fn translation_grid(x: Scalar, y: Scalar, z: Scalar) -> Seq<Seq<Scalar>> {
    grid4(
        (one(), zero(), zero(), x),
        (zero(), one(), zero(), y),
        (zero(), zero(), one(), z),
        (zero(), zero(), zero(), one()),
    )
}

/// The transform that stretches each axis by its factor.
pub open spec fn scaling_grid(x: Scalar, y: Scalar, z: Scalar) -> Seq<Seq<Scalar>> {
    grid4(
        (x, zero(), zero(), zero()),
        (zero(), y, zero(), zero()),
        (zero(), zero(), z, zero()),
        (zero(), zero(), zero(), one()),
    )
}

/// The transform that moves each coordinate in proportion to the two others.
pub open spec fn shearing_grid(
    xy: Scalar,
    xz: Scalar,
    yx: Scalar,
    yz: Scalar,
    zx: Scalar,
    zy: Scalar,
) -> Seq<Seq<Scalar>> {
    grid4(
        (one(), xy, xz, zero()),
        (yx, one(), yz, zero()),
        (zx, zy, one(), zero()),
        (zero(), zero(), zero(), one()),
    )
}

/// The turn about the x axis by the angle with the given cosine and sine.
pub open spec fn rotation_x_grid(cos: Scalar, sin: Scalar) -> Seq<Seq<Scalar>> {
    grid4(
        (one(), zero(), zero(), zero()),
        (zero(), cos, sin.negated(), zero()),
        (zero(), sin, cos, zero()),
        (zero(), zero(), zero(), one()),
    )
}

/// The turn about the y axis by the angle with the given cosine and sine.
pub open spec fn rotation_y_grid(cos: Scalar, sin: Scalar) -> Seq<Seq<Scalar>> {
    grid4(
        (cos, zero(), sin, zero()),
        (zero(), one(), zero(), zero()),
        (sin.negated(), zero(), cos, zero()),
        (zero(), zero(), zero(), one()),
    )
}

/// The turn about the z axis by the angle with the given cosine and sine.
pub open spec fn rotation_z_grid(cos: Scalar, sin: Scalar) -> Seq<Seq<Scalar>> {
    grid4(
        (cos, sin.negated(), zero(), zero()),
        (sin, cos, zero(), zero()),
        (zero(), zero(), one(), zero()),
        (zero(), zero(), zero(), one()),
    )
}

/// The coordinate at `index` of a triple with `w` as its fourth.
pub open spec fn pick(coords: (Scalar, Scalar, Scalar), w: Scalar, index: int) -> Scalar {
    if index == 0 {
        coords.0
    } else if index == 1 {
        coords.1
    } else if index == 2 {
        coords.2
    } else {
        w
    }
}

/// The first `k` products of a row's entries with the coordinates, added to
/// zero from the left.
pub open spec fn row_applied<F: Unit>(
    unit: &F,
    row: Seq<Scalar>,
    coords: (Scalar, Scalar, Scalar),
    w: Scalar,
    k: nat,
) -> Scalar
    decreases k,
{
    if k == 0 {
        zero()
    } else {
        sum(
            unit,
            row_applied(unit, row, coords, w, (k - 1) as nat),
            product(unit, row[k - 1], pick(coords, w, k - 1)),
        )
    }
}

/// One coordinate of the image: the whole row applied, or zero where the
/// grid has no such row.
pub open spec fn component<F: Unit>(
    unit: &F,
    grid: Seq<Seq<Scalar>>,
    coords: (Scalar, Scalar, Scalar),
    w: Scalar,
    r: int,
) -> Scalar {
    if r < grid.len() {
        row_applied(unit, grid[r], coords, w, grid.len())
    } else {
        zero()
    }
}

/// The first three coordinates of the grid times the column (coords, w).
pub open spec fn applied<F: Unit>(
    unit: &F,
    grid: Seq<Seq<Scalar>>,
    coords: (Scalar, Scalar, Scalar),
    w: Scalar,
) -> (Scalar, Scalar, Scalar) {
    (
        component(unit, grid, coords, w, 0),
        component(unit, grid, coords, w, 1),
        component(unit, grid, coords, w, 2),
    )
}

/// The first `k` products of row `r` of `a` with column `c` of `b`, added
/// to zero from the left.
pub open spec fn cell_product<F: Unit>(
    unit: &F,
    a: Seq<Seq<Scalar>>,
    b: Seq<Seq<Scalar>>,
    r: int,
    c: int,
    k: nat,
) -> Scalar
    decreases k,
{
    if k == 0 {
        zero()
    } else {
        sum(
            unit,
            cell_product(unit, a, b, r, c, (k - 1) as nat),
            product(unit, a[r][k - 1], b[k - 1][c]),
        )
    }
}

/// The matrix product: rows of `a` against columns of `b`.
pub open spec fn multiplied<F: Unit>(
    unit: &F,
    a: Seq<Seq<Scalar>>,
    b: Seq<Seq<Scalar>>,
) -> Seq<Seq<Scalar>> {
    Seq::new(
        a.len(),
        |r: int| Seq::new(a.len(), |c: int| cell_product(unit, a, b, r, c, a.len())),
    )
}

/// The determinant: one for the empty grid, the entry itself for one row,
/// for two rows the difference of the diagonals' products, and from three
/// rows on the expansion along the first row.
pub open spec fn det<F: Unit>(unit: &F, grid: Seq<Seq<Scalar>>) -> Scalar
    decreases grid.len(), 1nat, 0nat,
{
    if grid.len() == 0 {
        one()
    } else if grid.len() == 1 {
        grid[0][0]
    } else if grid.len() == 2 {
        difference(
            unit,
            product(unit, grid[0][0], grid[1][1]),
            product(unit, grid[1][0], grid[0][1]),
        )
    } else {
        expansion(unit, grid, grid.len())
    }
}

/// The first `k` terms of the expansion along the first row, added to zero
/// from the left: each entry times the cofactor of its place.
pub open spec fn expansion<F: Unit>(unit: &F, grid: Seq<Seq<Scalar>>, k: nat) -> Scalar
    decreases grid.len(), 0nat, k,
{
    if k == 0 || k > grid.len() {
        zero()
    } else {
        sum(
            unit,
            expansion(unit, grid, (k - 1) as nat),
            product(
                unit,
                grid[0][k - 1],
                signed_minor(0, k - 1, det(unit, without(grid, 0, k - 1))),
            ),
        )
    }
}

/// The cofactor of a place: the determinant of the grid without the
/// place's row and column, with the sign of the place.
pub open spec fn cofactor_at<F: Unit>(
    unit: &F,
    grid: Seq<Seq<Scalar>>,
    row: int,
    col: int,
) -> Scalar {
    signed_minor(row, col, det(unit, without(grid, row, col)))
}

/// The inverse as adjugate over determinant: at (c, r) the cofactor of
/// (r, c) divided by the determinant.
pub open spec fn inverse_grid<F: Unit>(unit: &F, grid: Seq<Seq<Scalar>>) -> Seq<Seq<Scalar>> {
    Seq::new(
        grid.len(),
        |c: int|
            Seq::new(
                grid.len(),
                |r: int| quotient(unit, cofactor_at(unit, grid, r, c), det(unit, grid)),
            ),
    )
}

/// Two grids of one size whose entries are pairwise within the tolerance.
pub open spec fn close_grids<F: Unit>(
    unit: &F,
    a: Seq<Seq<Scalar>>,
    b: Seq<Seq<Scalar>>,
) -> bool {
    a.len() == b.len() && forall|i: int, j: int|
        0 <= i < a.len() && 0 <= j < a.len() ==> near(unit, #[trigger] a[i][j], #[trigger] b[i][j])
}

impl View for SquareMatrix {
    type V = Seq<Seq<Scalar>>;

    closed spec fn view(&self) -> Seq<Seq<Scalar>> {
        rows_of(self.elements@)
    }
}

impl SquareMatrix {
    /// The matrix is square.
    pub open spec fn wf(&self) -> bool {
        is_square_grid(self@)
    }

    /// The number of rows.
    pub open spec fn size(&self) -> nat {
        self@.len()
    }

    pub fn new(elements: Vec<Vec<Scalar>>) -> (m: SquareMatrix)
        ensures
            m@ == rows_of(elements@),
    {
        SquareMatrix { elements }
    }

    pub fn get_size(&self) -> (n: usize)
        ensures
            n == self.size(),
    {
        self.elements.len()
    }

    pub fn is_square(&self) -> (b: bool)
        ensures
            b == self.wf(),
    {
        let n: usize = self.elements.len();
        let mut i: usize = 0;
        while i < n
            invariant
                i <= n,
                n == self.elements@.len(),
                forall|k: int| 0 <= k < i ==> (#[trigger] self@[k]).len() == n,
            decreases n - i,
        {
            if self.elements[i].len() != n {
                assert(self@[i as int].len() != n);
                return false;
            }
            i += 1;
        }
        true
    }

    pub fn zeroes(size: usize) -> (m: SquareMatrix)
        ensures
            m.wf(),
            m.size() == size,
            forall|i: int, j: int| 0 <= i < size && 0 <= j < size ==> m@[i][j] == zero(),
    {
        let mut rows: Vec<Vec<Scalar>> = Vec::new();
        let mut i: usize = 0;
        while i < size
            invariant
                i <= size,
                rows@.len() == i,
                forall|k: int| 0 <= k < i ==> (#[trigger] rows@[k])@.len() == size,
                forall|k: int, j: int| 0 <= k < i && 0 <= j < size ==> rows@[k]@[j] == zero(),
            decreases size - i,
        {
            let mut row: Vec<Scalar> = Vec::new();
            let mut j: usize = 0;
            while j < size
                invariant
                    j <= size,
                    row@.len() == j,
                    forall|k: int| 0 <= k < j ==> row@[k] == zero(),
                decreases size - j,
            {
                row.push(Scalar::zero());
                j += 1;
            }
            rows.push(row);
            i += 1;
        }
        SquareMatrix { elements: rows }
    }

    pub fn identity(size: usize) -> (m: SquareMatrix)
        ensures
            m.wf(),
            m@ =~~= identity_grid(size as int),
    {
        let mut rows: Vec<Vec<Scalar>> = Vec::new();
        let mut i: usize = 0;
        while i < size
            invariant
                i <= size,
                rows@.len() == i,
                forall|k: int| 0 <= k < i ==> (#[trigger] rows@[k])@.len() == size,
                forall|k: int, j: int|
                    0 <= k < i && 0 <= j < size ==> rows@[k]@[j] == if k == j {
                        one()
                    } else {
                        zero()
                    },
            decreases size - i,
        {
            let mut row: Vec<Scalar> = Vec::new();
            let mut j: usize = 0;
            while j < size
                invariant
                    j <= size,
                    row@.len() == j,
                    forall|k: int| 0 <= k < j ==> row@[k] == if i == k { one() } else { zero() },
                decreases size - j,
            {
                if i == j {
                    row.push(Scalar::one());
                } else {
                    row.push(Scalar::zero());
                }
                j += 1;
            }
            rows.push(row);
            i += 1;
        }
        SquareMatrix { elements: rows }
    }

    pub fn get(&self, row: usize, col: usize) -> (v: Scalar)
        requires
            row < self@.len(),
            col < self@[row as int].len(),
        ensures
            v == self@[row as int][col as int],
    {
        self.elements[row][col]
    }

    pub fn set(&mut self, row: usize, col: usize, value: Scalar)
        requires
            row < old(self)@.len(),
            col < old(self)@[row as int].len(),
        ensures
            final(self)@ == with_entry(old(self)@, row as int, col as int, value),
            old(self).wf() ==> final(self).wf(),
    {
        self.elements[row][col] = value;
    }

    pub fn transpose(&self) -> (m: SquareMatrix)
        requires
            self.wf(),
        ensures
            m.wf(),
            m@ =~~= transposed(self@),
    {
        let n: usize = self.elements.len();
        let mut rows: Vec<Vec<Scalar>> = Vec::new();
        let mut i: usize = 0;
        while i < n
            invariant
                i <= n,
                n == self.elements@.len(),
                self.wf(),
                rows@.len() == i,
                forall|k: int| 0 <= k < i ==> (#[trigger] rows@[k])@.len() == n,
                forall|k: int, j: int| 0 <= k < i && 0 <= j < n ==> rows@[k]@[j] == self@[j][k],
            decreases n - i,
        {
            let mut row: Vec<Scalar> = Vec::new();
            let mut j: usize = 0;
            while j < n
                invariant
                    j <= n,
                    i < n,
                    n == self.elements@.len(),
                    self.wf(),
                    row@.len() == j,
                    forall|k: int| 0 <= k < j ==> row@[k] == self@[k][i as int],
                decreases n - j,
            {
                assert(self@[j as int].len() == n);
                row.push(self.elements[j][i]);
                j += 1;
            }
            rows.push(row);
            i += 1;
        }
        SquareMatrix { elements: rows }
    }
    pub fn translation(x: Scalar, y: Scalar, z: Scalar) -> (m: SquareMatrix)
        ensures
            m.wf(),
            m@ =~~= translation_grid(x, y, z),
    {
        let mut result = SquareMatrix::identity(4);
        result.set(0, 3, x);
        result.set(1, 3, y);
        result.set(2, 3, z);
        result
    }

    pub fn rotation_x<F: Unit>(radians: Scalar, unit: &F) -> (m: SquareMatrix)
        requires
            sound(unit),
        ensures
            m.wf(),
            m@ =~~= rotation_x_grid(cosine(unit, radians), sine(unit, radians)),
    {
        let mut matrix = SquareMatrix::identity(4);
        let cos = crate::primitives::arithmetic::cos(unit, radians);
        let sin = crate::primitives::arithmetic::sin(unit, radians);
        matrix.set(1, 1, cos);
        matrix.set(2, 2, cos);
        matrix.set(1, 2, sin.neg());
        matrix.set(2, 1, sin);
        matrix
    }

    pub fn rotation_y<F: Unit>(radians: Scalar, unit: &F) -> (m: SquareMatrix)
        requires
            sound(unit),
        ensures
            m.wf(),
            m@ =~~= rotation_y_grid(cosine(unit, radians), sine(unit, radians)),
    {
        let mut matrix = SquareMatrix::identity(4);
        let cos = crate::primitives::arithmetic::cos(unit, radians);
        let sin = crate::primitives::arithmetic::sin(unit, radians);
        matrix.set(0, 0, cos);
        matrix.set(2, 2, cos);
        matrix.set(2, 0, sin.neg());
        matrix.set(0, 2, sin);
        matrix
    }

    pub fn rotation_z<F: Unit>(radians: Scalar, unit: &F) -> (m: SquareMatrix)
        requires
            sound(unit),
        ensures
            m.wf(),
            m@ =~~= rotation_z_grid(cosine(unit, radians), sine(unit, radians)),
    {
        let mut matrix = SquareMatrix::identity(4);
        let cos = crate::primitives::arithmetic::cos(unit, radians);
        let sin = crate::primitives::arithmetic::sin(unit, radians);
        matrix.set(0, 0, cos);
        matrix.set(1, 1, cos);
        matrix.set(0, 1, sin.neg());
        matrix.set(1, 0, sin);
        matrix
    }

    pub fn scaling(x: Scalar, y: Scalar, z: Scalar) -> (m: SquareMatrix)
        ensures
            m.wf(),
            m@ =~~= scaling_grid(x, y, z),
    {
        let mut matrix = SquareMatrix::zeroes(4);
        matrix.set(0, 0, x);
        matrix.set(1, 1, y);
        matrix.set(2, 2, z);
        matrix.set(3, 3, Scalar::one());
        matrix
    }

    pub fn shearing(
        xy: Scalar,
        xz: Scalar,
        yx: Scalar,
        yz: Scalar,
        zx: Scalar,
        zy: Scalar,
    ) -> (m: SquareMatrix)
        ensures
            m.wf(),
            m@ =~~= shearing_grid(xy, xz, yx, yz, zx, zy),
    {
        let mut matrix = SquareMatrix::identity(4);
        matrix.set(0, 1, xy);
        matrix.set(0, 2, xz);
        matrix.set(1, 0, yx);
        matrix.set(1, 2, yz);
        matrix.set(2, 0, zx);
        matrix.set(2, 1, zy);
        matrix
    }

    pub fn set_all(&mut self, elements: &[(usize, usize, Scalar)])
        requires
            old(self).wf(),
            entries_fit(elements@, old(self).size() as int),
        ensures
            final(self).wf(),
            final(self).size() == old(self).size(),
            final(self)@ == with_entries(old(self)@, elements@),
    {
        let mut k: usize = 0;
        while k < elements.len()
            invariant
                k <= elements@.len(),
                self.wf(),
                self.size() == old(self).size(),
                entries_fit(elements@, old(self).size() as int),
                self@ == with_entries(old(self)@, elements@.take(k as int)),
            decreases elements@.len() - k,
        {
            let entry = elements[k];
            assert(elements@.take(k + 1).drop_last() =~= elements@.take(k as int));
            self.set(entry.0, entry.1, entry.2);
            k += 1;
        }
        assert(elements@.take(k as int) =~= elements@);
    }

    /// The matrix without one row and one column.
    pub fn submatrix(&self, row: usize, col: usize) -> (m: SquareMatrix)
        requires
            self.wf(),
            row < self.size(),
            col < self.size(),
        ensures
            m.wf(),
            m@ =~~= without(self@, row as int, col as int),
    {
        let n: usize = self.elements.len();
        let mut rows: Vec<Vec<Scalar>> = Vec::new();
        let mut i: usize = 0;
        while i < n
            invariant
                i <= n,
                row < n,
                col < n,
                n == self.elements@.len(),
                self.wf(),
                rows@.len() == if i <= row { i as int } else { i - 1 },
                forall|k: int| 0 <= k < rows@.len() ==> (#[trigger] rows@[k])@.len() == n - 1,
                forall|k: int, j: int|
                    0 <= k < rows@.len() && 0 <= j < n - 1 ==> rows@[k]@[j] == self@[if k < row {
                        k
                    } else {
                        k + 1
                    }][if j < col {
                        j
                    } else {
                        j + 1
                    }],
            decreases n - i,
        {
            if i != row {
                let mut line: Vec<Scalar> = Vec::new();
                let mut j: usize = 0;
                while j < n
                    invariant
                        j <= n,
                        i < n,
                        col < n,
                        n == self.elements@.len(),
                        self@[i as int].len() == n,
                        line@.len() == if j <= col { j as int } else { j - 1 },
                        forall|k: int|
                            0 <= k < line@.len() ==> line@[k] == self@[i as int][if k < col {
                                k
                            } else {
                                k + 1
                            }],
                    decreases n - j,
                {
                    if j != col {
                        line.push(self.elements[i][j]);
                    }
                    j += 1;
                }
                rows.push(line);
            }
            i += 1;
        }
        SquareMatrix { elements: rows }
    }

    /// The image of a column of three coordinates and `w`.
    fn apply_to<F: Unit>(
        &self,
        coords: (Scalar, Scalar, Scalar),
        w: Scalar,
        unit: &F,
    ) -> (image: (Scalar, Scalar, Scalar))
        requires
            self.wf(),
            sound(unit),
        ensures
            image == applied(unit, self@, coords, w),
    {
        let n: usize = self.elements.len();
        let mut data: Vec<Scalar> = Vec::new();
        let mut r: usize = 0;
        while r < 3
            invariant
                r <= 3,
                n == self.elements@.len(),
                self.wf(),
                sound(unit),
                data@.len() == r,
                forall|k: int| 0 <= k < r ==> data@[k] == component(unit, self@, coords, w, k),
            decreases 3 - r,
        {
            let mut value = Scalar::zero();
            if r < n {
                let mut c: usize = 0;
                while c < n
                    invariant
                        c <= n,
                        r < n,
                        n == self.elements@.len(),
                        self@[r as int].len() == n,
                        sound(unit),
                        value == row_applied(unit, self@[r as int], coords, w, c as nat),
                    decreases n - c,
                {
                    let coordinate = if c == 0 {
                        coords.0
                    } else if c == 1 {
                        coords.1
                    } else if c == 2 {
                        coords.2
                    } else {
                        w
                    };
                    value = plus(unit, value, times(unit, self.elements[r][c], coordinate));
                    c += 1;
                }
            }
            data.push(value);
            r += 1;
        }
        (data[0], data[1], data[2])
    }

    /// The transform applied to a position: the fourth coordinate is one.
    pub fn mul_point<F: Unit>(&self, rhs: &Point, unit: &F) -> (p: Point)
        requires
            self.wf(),
            sound(unit),
        ensures
            p == rhs.mapped(unit, self@),
    {
        let image = self.apply_to((rhs.x, rhs.y, rhs.z), Scalar::one(), unit);
        Point { x: image.0, y: image.1, z: image.2 }
    }

    /// The transform applied to a direction: the fourth coordinate is zero.
    pub fn mul_vector<F: Unit>(&self, rhs: &Vector, unit: &F) -> (v: Vector)
        requires
            self.wf(),
            sound(unit),
        ensures
            v == rhs.mapped(unit, self@),
    {
        let image = self.apply_to((rhs.x, rhs.y, rhs.z), Scalar::zero(), unit);
        Vector { x: image.0, y: image.1, z: image.2 }
    }

    /// The matrix product `self * rhs`.
    pub fn mul<F: Unit>(&self, rhs: &SquareMatrix, unit: &F) -> (m: SquareMatrix)
        requires
            self.wf(),
            rhs.wf(),
            self.size() == rhs.size(),
            sound(unit),
        ensures
            m.wf(),
            m@ =~~= multiplied(unit, self@, rhs@),
    {
        let n: usize = self.elements.len();
        let mut rows: Vec<Vec<Scalar>> = Vec::new();
        let mut r: usize = 0;
        while r < n
            invariant
                r <= n,
                n == self.elements@.len(),
                n == rhs.elements@.len(),
                self.wf(),
                rhs.wf(),
                sound(unit),
                rows@.len() == r,
                forall|k: int| 0 <= k < r ==> (#[trigger] rows@[k])@.len() == n,
                forall|k: int, j: int|
                    0 <= k < r && 0 <= j < n ==> rows@[k]@[j] == cell_product(
                        unit,
                        self@,
                        rhs@,
                        k,
                        j,
                        n as nat,
                    ),
            decreases n - r,
        {
            let mut line: Vec<Scalar> = Vec::new();
            let mut c: usize = 0;
            while c < n
                invariant
                    c <= n,
                    r < n,
                    n == self.elements@.len(),
                    n == rhs.elements@.len(),
                    self.wf(),
                    rhs.wf(),
                    sound(unit),
                    line@.len() == c,
                    forall|j: int|
                        0 <= j < c ==> line@[j] == cell_product(
                            unit,
                            self@,
                            rhs@,
                            r as int,
                            j,
                            n as nat,
                        ),
                decreases n - c,
            {
                let mut value = Scalar::zero();
                let mut index: usize = 0;
                while index < n
                    invariant
                        index <= n,
                        r < n,
                        c < n,
                        n == self.elements@.len(),
                        n == rhs.elements@.len(),
                        self@[r as int].len() == n,
                        rhs.wf(),
                        sound(unit),
                        value == cell_product(unit, self@, rhs@, r as int, c as int, index as nat),
                    decreases n - index,
                {
                    assert(rhs@[index as int].len() == n);
                    value = plus(
                        unit,
                        value,
                        times(unit, self.elements[r][index], rhs.elements[index][c]),
                    );
                    index += 1;
                }
                line.push(value);
                c += 1;
            }
            rows.push(line);
            r += 1;
        }
        SquareMatrix { elements: rows }
    }

    pub fn determinant<F: Unit>(&self, unit: &F) -> (d: Scalar)
        requires
            self.wf(),
            sound(unit),
        ensures
            d == det(unit, self@),
        decreases self.size(), 2nat,
    {
        let n: usize = self.elements.len();
        if n == 0 {
            return Scalar::one();
        }
        if n == 1 {
            assert(self@[0].len() == 1);
            return self.elements[0][0];
        }
        if n == 2 {
            assert(self@[0].len() == 2 && self@[1].len() == 2);
            return minus(
                unit,
                times(unit, self.elements[0][0], self.elements[1][1]),
                times(unit, self.elements[1][0], self.elements[0][1]),
            );
        }
        let mut result = Scalar::zero();
        let mut i: usize = 0;
        while i < n
            invariant
                i <= n,
                n == self.elements@.len(),
                self.wf(),
                sound(unit),
                result == expansion(unit, self@, i as nat),
            decreases n - i,
        {
            assert(self@[0].len() == n);
            let cofactor = self.cofactor(0, i, unit);
            result = plus(unit, result, times(unit, self.elements[0][i], cofactor));
            i += 1;
        }
        result
    }

    /// The determinant of the matrix without one row and one column.
    pub fn minor<F: Unit>(&self, row: usize, col: usize, unit: &F) -> (d: Scalar)
        requires
            self.wf(),
            row < self.size(),
            col < self.size(),
            sound(unit),
        ensures
            d == det(unit, without(self@, row as int, col as int)),
        decreases self.size(), 0nat,
    {
        self.submatrix(row, col).determinant(unit)
    }

    /// The minor of a place with the sign of that place.
    pub fn cofactor<F: Unit>(&self, row: usize, col: usize, unit: &F) -> (c: Scalar)
        requires
            self.wf(),
            row < self.size(),
            col < self.size(),
            sound(unit),
        ensures
            c == cofactor_at(unit, self@, row as int, col as int),
        decreases self.size(), 1nat,
    {
        let minor = self.minor(row, col, unit);
        if row % 2 != col % 2 {
            minor.neg()
        } else {
            minor
        }
    }

    /// Whether the matrix has an inverse: it has one unless its determinant
    /// is zero, of either sign.
    pub fn is_invertable<F: Unit>(&self, unit: &F) -> (b: bool)
        requires
            self.wf(),
            sound(unit),
        ensures
            b == !det(unit, self@).same(zero()),
    {
        !self.determinant(unit).is_zero()
    }

    /// The inverse, or the error for a matrix whose determinant is zero.
    pub fn invert<F: Unit>(&self, unit: &F) -> (r: Result<SquareMatrix, TransformError>)
        requires
            self.wf(),
            sound(unit),
        ensures
            r.is_err() <==> det(unit, self@).same(zero()),
            r.is_err() ==> r == Err::<SquareMatrix, TransformError>(TransformError::Degenerate),
            r.is_ok() ==> r.unwrap().wf() && r.unwrap()@ =~~= inverse_grid(unit, self@),
    {
        let determinant = self.determinant(unit);
        if determinant.is_zero() {
            return Err(TransformError::Degenerate);
        }
        let n: usize = self.elements.len();
        let mut rows: Vec<Vec<Scalar>> = Vec::new();
        let mut col: usize = 0;
        while col < n
            invariant
                col <= n,
                n == self.elements@.len(),
                self.wf(),
                sound(unit),
                determinant == det(unit, self@),
                rows@.len() == col,
                forall|k: int| 0 <= k < col ==> (#[trigger] rows@[k])@.len() == n,
                forall|k: int, j: int|
                    0 <= k < col && 0 <= j < n ==> rows@[k]@[j] == quotient(
                        unit,
                        cofactor_at(unit, self@, j, k),
                        determinant,
                    ),
            decreases n - col,
        {
            let mut line: Vec<Scalar> = Vec::new();
            let mut row: usize = 0;
            while row < n
                invariant
                    row <= n,
                    col < n,
                    n == self.elements@.len(),
                    self.wf(),
                    sound(unit),
                    line@.len() == row,
                    forall|j: int|
                        0 <= j < row ==> line@[j] == quotient(
                            unit,
                            cofactor_at(unit, self@, j, col as int),
                            determinant,
                        ),
                decreases n - row,
            {
                line.push(over(unit, self.cofactor(row, col, unit), determinant));
                row += 1;
            }
            rows.push(line);
            col += 1;
        }
        Ok(SquareMatrix { elements: rows })
    }

    /// Equality within the tolerance, entry by entry.
    pub fn eq<F: Unit>(&self, other: &SquareMatrix, unit: &F) -> (b: bool)
        requires
            self.wf(),
            other.wf(),
            sound(unit),
        ensures
            b == close_grids(unit, self@, other@),
    {
        let n: usize = self.elements.len();
        if n != other.elements.len() {
            return false;
        }
        let mut i: usize = 0;
        while i < n
            invariant
                i <= n,
                n == self.elements@.len(),
                n == other.elements@.len(),
                self.wf(),
                other.wf(),
                sound(unit),
                forall|k: int, j: int|
                    0 <= k < i && 0 <= j < n ==> near(
                        unit,
                        #[trigger] self@[k][j],
                        #[trigger] other@[k][j],
                    ),
            decreases n - i,
        {
            let mut j: usize = 0;
            while j < n
                invariant
                    j <= n,
                    i < n,
                    n == self.elements@.len(),
                    n == other.elements@.len(),
                    self@[i as int].len() == n,
                    other@[i as int].len() == n,
                    sound(unit),
                    forall|k: int|
                        0 <= k < j ==> near(
                            unit,
                            #[trigger] self@[i as int][k],
                            #[trigger] other@[i as int][k],
                        ),
                decreases n - j,
            {
                if !approx_eq(unit, self.elements[i][j], other.elements[i][j]) {
                    return false;
                }
                j += 1;
            }
            i += 1;
        }
        true
    }

    /// A copy, entry for entry.
    pub fn duplicate(&self) -> (m: SquareMatrix)
        ensures
            m@ =~~= self@,
    {
        let n: usize = self.elements.len();
        let mut rows: Vec<Vec<Scalar>> = Vec::new();
        let mut i: usize = 0;
        while i < n
            invariant
                i <= n,
                n == self.elements@.len(),
                rows@.len() == i,
                forall|k: int| 0 <= k < i ==> (#[trigger] rows@[k])@ =~= self@[k],
            decreases n - i,
        {
            let width: usize = self.elements[i].len();
            let mut line: Vec<Scalar> = Vec::new();
            let mut j: usize = 0;
            while j < width
                invariant
                    j <= width,
                    i < n,
                    n == self.elements@.len(),
                    width == self@[i as int].len(),
                    line@.len() == j,
                    forall|k: int| 0 <= k < j ==> line@[k] == self@[i as int][k],
                decreases width - j,
            {
                line.push(self.elements[i][j]);
                j += 1;
            }
            rows.push(line);
            i += 1;
        }
        SquareMatrix { elements: rows }
    }
}

/// Exchanging rows and columns twice gives the matrix back.
pub proof fn transposing_twice_is_the_identity(grid: Seq<Seq<Scalar>>)
    requires
        is_square_grid(grid),
    ensures
        transposed(transposed(grid)) =~~= grid,
{
}

/// What a translation does to a column of three coordinates and a
/// fourth, `w`: each coordinate of the image is what the identity's first
/// three columns give, plus the offset times `w`. A direction has `w` zero
/// and so meets every offset under a factor of zero; a position has `w`
/// one and meets each offset whole.
pub proof fn translation_adds_the_offset_times_w<F: Unit>(
    unit: &F,
    coords: (Scalar, Scalar, Scalar),
    w: Scalar,
    x: Scalar,
    y: Scalar,
    z: Scalar,
)
    ensures
        applied(unit, translation_grid(x, y, z), coords, w) == (
            sum(
                unit,
                row_applied(unit, identity_grid(4)[0], coords, w, 3),
                product(unit, x, w),
            ),
            sum(
                unit,
                row_applied(unit, identity_grid(4)[1], coords, w, 3),
                product(unit, y, w),
            ),
            sum(
                unit,
                row_applied(unit, identity_grid(4)[2], coords, w, 3),
                product(unit, z, w),
            ),
        ),
{
    reveal_with_fuel(row_applied, 5);
}

/// The inverse of a matrix of two rows: the diagonal entries exchanged,
/// the two others negated, each over the determinant.
pub proof fn inverse_of_two_rows<F: Unit>(unit: &F, grid: Seq<Seq<Scalar>>)
    requires
        grid.len() == 2,
        is_square_grid(grid),
    ensures
        inverse_grid(unit, grid) =~~= seq![
            seq![
                quotient(unit, grid[1][1], det(unit, grid)),
                quotient(unit, grid[0][1].negated(), det(unit, grid)),
            ],
            seq![
                quotient(unit, grid[1][0].negated(), det(unit, grid)),
                quotient(unit, grid[0][0], det(unit, grid)),
            ],
        ],
{
    assert(without(grid, 0, 0).len() == 1 && without(grid, 0, 1).len() == 1);
    assert(without(grid, 1, 0).len() == 1 && without(grid, 1, 1).len() == 1);
}

/// The inverse of a matrix of one row: one over its entry.
pub proof fn inverse_of_one_row<F: Unit>(unit: &F, grid: Seq<Seq<Scalar>>)
    requires
        grid.len() == 1,
        is_square_grid(grid),
    ensures
        inverse_grid(unit, grid) =~~= seq![seq![quotient(unit, one(), grid[0][0])]],
{
    assert(without(grid, 0, 0).len() == 0);
}

} // verus!
