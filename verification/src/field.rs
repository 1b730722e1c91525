//! A grid of force vectors laid over the window, looked up by nearest cell.
use vstd::prelude::*;
use crate::fixed::{scaled, times, Vec2};
use crate::window::WindowSize;

verus! {

/// The largest width or height over which a field can be laid: 2^62.
pub const MAX_EXTENT: i64 = 4611686018427387904;

/// A grid of `rows` by `cols` force vectors, row by row, laid over a window of
/// `width` by `height` that is centred on the origin. Nothing changes it once made.
pub struct VectorField {
    rows: usize,
    cols: usize,
    width: i64,
    height: i64,
    cells: Vec<Vec2>,
}

/// Where the `n`-th of `count` grid lines lies across an extent centred on zero.
pub open spec fn grid_line(n: int, count: int, extent: int) -> int {
    (n * extent) / count - extent / 2
}

/// The force vectors of a field made from unit directions and an amplitude.
pub open spec fn amplified(directions: Seq<Vec2>, amplitude: i64) -> Seq<Vec2> {
    Seq::new(
        directions.len(),
        |i: int|
            Vec2 {
                x: scaled(directions[i].x as int, amplitude as int) as i64,
                y: scaled(directions[i].y as int, amplitude as int) as i64,
            },
    )
}

/// Whether a field of this shape can be made.
pub open spec fn field_fits(rows: usize, cols: usize, size: WindowSize, cells: nat) -> bool {
    &&& rows > 0
    &&& cols > 0
    &&& rows * cols == cells
    &&& 0 <= size.width <= MAX_EXTENT
    &&& 0 <= size.height <= MAX_EXTENT
}

impl VectorField {
    /// What holds of every field.
    #[verifier::type_invariant]
    pub closed spec fn wf(self) -> bool {
        field_fits(
            self.rows,
            self.cols,
            WindowSize { width: self.width, height: self.height },
            self.cells@.len(),
        )
    }

    pub closed spec fn rows(self) -> int {
        self.rows as int
    }

    pub closed spec fn cols(self) -> int {
        self.cols as int
    }

    /// The size of the window over which the field was laid.
    pub closed spec fn size(self) -> WindowSize {
        WindowSize { width: self.width, height: self.height }
    }

    /// The force vectors, row by row.
    pub closed spec fn cells(self) -> Seq<Vec2> {
        self.cells@
    }

    /// The horizontal position of the cells of a column.
    pub open spec fn cell_x(self, col: int) -> int {
        grid_line(col, self.cols(), self.size().width as int)
    }

    /// The vertical position of the cells of a row.
    pub open spec fn cell_y(self, row: int) -> int {
        grid_line(row, self.rows(), self.size().height as int)
    }

    /// The squared distance from the point to the cell with the given index.
    pub open spec fn distance2(self, index: int, x: int, y: int) -> int {
        let dx = self.cell_x(index % self.cols()) - x;
        let dy = self.cell_y(index / self.cols()) - y;
        dx * dx + dy * dy
    }

    /// No cell is nearer to the point than the cell with the given index, and of
    /// the cells that are as near it comes first.
    pub open spec fn is_nearest(self, index: int, x: int, y: int) -> bool {
        &&& 0 <= index < self.cells().len()
        &&& forall|j: int|
            0 <= j < self.cells().len() ==> {
                ||| self.distance2(index, x, y) < #[trigger] self.distance2(j, x, y)
                ||| self.distance2(index, x, y) == self.distance2(j, x, y) && index <= j
            }
    }

    /// The index of the cell nearest to the point.
    pub open spec fn nearest(self, x: int, y: int) -> int {
        choose|index: int| self.is_nearest(index, x, y)
    }

    /// Lays a field over the window: the force of a cell is its direction times the
    /// amplitude. There is no field without rows or columns, with a number of
    /// directions other than `rows * cols`, or over a window whose width or height
    /// is negative or above `MAX_EXTENT`.
    pub fn new(
        rows: usize,
        cols: usize,
        size: &WindowSize,
        directions: &Vec<Vec2>,
        amplitude: i64,
    ) -> (field: Option<VectorField>)
        ensures
            field.is_some() == field_fits(rows, cols, *size, directions@.len()),
            field matches Some(f) ==> {
                &&& f.wf()
                &&& f.rows() == rows
                &&& f.cols() == cols
                &&& f.size() == *size
                &&& f.cells() == amplified(directions@, amplitude)
            },
    {
        if rows == 0 || cols == 0 || size.width < 0 || size.width > MAX_EXTENT || size.height < 0
            || size.height > MAX_EXTENT {
            return None;
        }
        assert(rows * cols <= 0xffff_ffff_ffff_ffff * 0xffff_ffff_ffff_ffff) by (nonlinear_arith)
            requires
                rows <= 0xffff_ffff_ffff_ffff,
                cols <= 0xffff_ffff_ffff_ffff,
        ;
        let count: u128 = rows as u128 * cols as u128;
        if count != directions.len() as u128 {
            return None;
        }
        let mut cells: Vec<Vec2> = Vec::new();
        let mut i: usize = 0;
        while i < directions.len()
            invariant
                i <= directions@.len(),
                cells@ == amplified(directions@.take(i as int), amplitude),
            decreases directions.len() - i,
        {
            let d: Vec2 = directions[i];
            cells.push(Vec2 { x: times(d.x, amplitude), y: times(d.y, amplitude) });
            i += 1;
        }
        assert(directions@.take(i as int) == directions@);
        Some(VectorField { rows, cols, width: size.width, height: size.height, cells })
    }

    /// The squared distance from the point to a cell.
    fn distance(&self, index: usize, x: i64, y: i64) -> (d: u128)
        requires
            index < self.cells().len(),
        ensures
            d == self.distance2(index as int, x as int, y as int),
    {
        proof {
            use_type_invariant(self);
            let (i, r, c) = (index as int, self.rows as int, self.cols as int);
            assert(i / c < r) by (nonlinear_arith)
                requires
                    0 <= i < r * c,
                    c > 0,
            ;
        }
        let cx: i64 = line(index % self.cols, self.cols, self.width);
        let cy: i64 = line(index / self.cols, self.rows, self.height);
        span2(cx, x) + span2(cy, y)
    }

    /// The index of the cell nearest to the point, found by going through all cells:
    /// of cells at the same distance the first one counts.
    pub fn nearest_cell(&self, x: i64, y: i64) -> (index: usize)
        ensures
            self.is_nearest(index as int, x as int, y as int),
            index == self.nearest(x as int, y as int),
    {
        proof {
            use_type_invariant(self);
            let (r, c) = (self.rows as int, self.cols as int);
            assert(r * c > 0) by (nonlinear_arith)
                requires
                    r > 0,
                    c > 0,
            ;
        }
        let mut best: usize = 0;
        let mut least: u128 = self.distance(0, x, y);
        let mut k: usize = 1;
        while k < self.cells.len()
            invariant
                1 <= k <= self.cells@.len(),
                best < k,
                least == self.distance2(best as int, x as int, y as int),
                forall|j: int|
                    0 <= j < k ==> {
                        ||| least < #[trigger] self.distance2(j, x as int, y as int)
                        ||| least == self.distance2(j, x as int, y as int) && best <= j
                    },
            decreases self.cells@.len() - k,
        {
            let d: u128 = self.distance(k, x, y);
            if d < least {
                best = k;
                least = d;
            }
            k += 1;
        }
        proof {
            self.lemma_nearest_is_unique(best as int, x as int, y as int);
        }
        best
    }

    /// The force at the point: that of the nearest cell.
    pub fn nearest_vector(&self, x: i64, y: i64) -> (force: Vec2)
        ensures
            force == self.cells()[self.nearest(x as int, y as int)],
    {
        let index: usize = self.nearest_cell(x, y);
        self.cells[index]
    }

    /// Only one cell is the nearest to a point.
    pub proof fn lemma_nearest_is_unique(self, index: int, x: int, y: int)
        requires
            self.is_nearest(index, x, y),
        ensures
            self.nearest(x, y) == index,
    {
        let other = self.nearest(x, y);
        assert(self.is_nearest(other, x, y));
        assert(self.distance2(other, x, y) <= self.distance2(index, x, y));
        assert(self.distance2(index, x, y) <= self.distance2(other, x, y));
    }
}

/// Computes `grid_line`.
fn line(n: usize, count: usize, extent: i64) -> (r: i64)
    requires
        n < count,
        0 <= extent <= MAX_EXTENT,
    ensures
        r == grid_line(n as int, count as int, extent as int),
        -0x2000_0000_0000_0000 <= r <= 0x2000_0000_0000_0000,
{
    proof {
        let (a, b, e) = (n as int, count as int, extent as int);
        assert(0 <= a * e <= 0xffff_ffff_ffff_ffff * 0x4000_0000_0000_0000) by (nonlinear_arith)
            requires
                0 <= a <= 0xffff_ffff_ffff_ffff,
                0 <= e <= 0x4000_0000_0000_0000,
        ;
        assert(0 <= (a * e) / b <= e) by (nonlinear_arith)
            requires
                0 <= a < b,
                0 <= e,
        ;
    }
    let across: u128 = (n as u128 * extent as u128) / count as u128;
    across as i64 - extent / 2
}

/// The square of the distance between two coordinates.
fn span2(c: i64, x: i64) -> (r: u128)
    requires
        -0x2000_0000_0000_0000 <= c <= 0x2000_0000_0000_0000,
    ensures
        r == (c - x) * (c - x),
        r <= 0x6400_0000_0000_0000_0000_0000_0000_0000,
{
    let d: i128 = c as i128 - x as i128;
    let m: u128 = if d < 0 {
        (-d) as u128
    } else {
        d as u128
    };
    assert(m * m == (c - x) * (c - x) && m * m <= 0x6400_0000_0000_0000_0000_0000_0000_0000)
        by (nonlinear_arith)
        requires
            m == c - x || m == -(c - x),
            0 <= m <= 0xa000_0000_0000_0000,
    ;
    m * m
}

} // verus!
