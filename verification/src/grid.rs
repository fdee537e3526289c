//! Pure geometry of a square grid: cell indices, rows, columns, and
//! toroidally wrapped neighbors in the four cardinal directions.

use vstd::prelude::*;

verus! {

/// One of the four cardinal headings.
#[derive(Clone, Copy, PartialEq, Eq, Structural, Debug)]
pub enum Direction {
    Up,
    Down,
    Left,
    Right,
}

/// Row of cell `idx` on a square grid of edge length `size`.
pub open spec fn row_of(idx: int, size: int) -> int {
    idx / size
}

/// Column of cell `idx` on a square grid of edge length `size`.
pub open spec fn col_of(idx: int, size: int) -> int {
    idx % size
}

/// The toroidally wrapped neighbor of `idx`, one cell in direction `dir`:
/// for `Up`/`Down` the row wraps modulo `size` while the column is held
/// fixed, for `Left`/`Right` the column wraps modulo `size` within the row.
pub open spec fn next_cell_spec(idx: int, size: int, dir: Direction) -> int {
    let row = row_of(idx, size);
    let col = col_of(idx, size);
    match dir {
        Direction::Up => if row == 0 {
            (size - 1) * size + col
        } else {
            (row - 1) * size + col
        },
        Direction::Down => if row == size - 1 {
            col
        } else {
            (row + 1) * size + col
        },
        Direction::Left => if col == 0 {
            row * size + (size - 1)
        } else {
            row * size + (col - 1)
        },
        Direction::Right => if col == size - 1 {
            row * size
        } else {
            row * size + (col + 1)
        },
    }
}

/// Recomposing a row `r` and a column `c`, both below `size`, names a cell
/// of the grid, and that cell decomposes back into `r` and `c`.
pub proof fn lemma_row_col(r: int, c: int, size: int)
    requires
        0 <= r < size,
        0 <= c < size,
    ensures
        0 <= r * size + c < size * size,
        row_of(r * size + c, size) == r,
        col_of(r * size + c, size) == c,
{
    assert(0 <= r * size + c < size * size && (r * size + c) / size == r && (r * size + c) % size
        == c) by (nonlinear_arith)
        requires
            0 <= r < size,
            0 <= c < size,
    ;
}

/// Every cell of the grid has a row and a column below `size` and is the
/// recomposition of the two.
pub proof fn lemma_cell_decompose(idx: int, size: int)
    requires
        0 < size,
        0 <= idx < size * size,
    ensures
        0 <= row_of(idx, size) < size,
        0 <= col_of(idx, size) < size,
        idx == row_of(idx, size) * size + col_of(idx, size),
{
    assert(0 <= idx / size < size && 0 <= idx % size < size && idx == (idx / size) * size + idx
        % size) by (nonlinear_arith)
        requires
            0 < size,
            0 <= idx < size * size,
    ;
}

/// A wrapped neighbor of a cell of the grid is again a cell of the grid.
pub proof fn lemma_next_cell_in_range(idx: int, size: int, dir: Direction)
    requires
        0 < size,
        0 <= idx < size * size,
    ensures
        0 <= next_cell_spec(idx, size, dir) < size * size,
{
    lemma_cell_decompose(idx, size);
    let row = row_of(idx, size);
    let col = col_of(idx, size);
    match dir {
        Direction::Up => {
            if row == 0 {
                lemma_row_col(size - 1, col, size);
            } else {
                lemma_row_col(row - 1, col, size);
            }
        },
        Direction::Down => {
            if row == size - 1 {
                lemma_row_col(0, col, size);
            } else {
                lemma_row_col(row + 1, col, size);
            }
        },
        Direction::Left => {
            if col == 0 {
                lemma_row_col(row, size - 1, size);
            } else {
                lemma_row_col(row, col - 1, size);
            }
        },
        Direction::Right => {
            if col == size - 1 {
                lemma_row_col(row, 0, size);
            } else {
                lemma_row_col(row, col + 1, size);
            }
        },
    }
}

/// Toroidal wrap law: moving `Up` from row 0 lands in row `size - 1` of the
/// same column, moving `Left` from column 0 lands in column `size - 1` of
/// the same row, and the reverse holds for `Down` and `Right` at the
/// opposite edge.
pub proof fn lemma_toroidal_wrap(idx: int, size: int)
    requires
        2 <= size,
        0 <= idx < size * size,
    ensures
        row_of(idx, size) == 0 ==> ({
            let n = next_cell_spec(idx, size, Direction::Up);
            row_of(n, size) == size - 1 && col_of(n, size) == col_of(idx, size)
        }),
        row_of(idx, size) == size - 1 ==> ({
            let n = next_cell_spec(idx, size, Direction::Down);
            row_of(n, size) == 0 && col_of(n, size) == col_of(idx, size)
        }),
        col_of(idx, size) == 0 ==> ({
            let n = next_cell_spec(idx, size, Direction::Left);
            row_of(n, size) == row_of(idx, size) && col_of(n, size) == size - 1
        }),
        col_of(idx, size) == size - 1 ==> ({
            let n = next_cell_spec(idx, size, Direction::Right);
            row_of(n, size) == row_of(idx, size) && col_of(n, size) == 0
        }),
{
    lemma_cell_decompose(idx, size);
    let row = row_of(idx, size);
    let col = col_of(idx, size);
    lemma_row_col(size - 1, col, size);
    lemma_row_col(0, col, size);
    lemma_row_col(row, size - 1, size);
    lemma_row_col(row, 0, size);
}

/// Stateless coordinate arithmetic of a square grid: the edge length and the
/// cell count, with the count always the square of the edge.
pub struct Grid {
    /// Edge length of the square grid, at least 2.
    pub size: usize,
    /// Cell count, always `size * size`.
    pub capacity: usize,
}

impl Grid {
    /// Edge length as a mathematical integer.
    pub open spec fn spec_size(&self) -> int {
        self.size as int
    }

    /// Cell count as a mathematical integer.
    pub open spec fn spec_capacity(&self) -> int {
        self.capacity as int
    }

    /// A requested edge length below the supported minimum of 2 is clamped
    /// to 2.
    pub open spec fn clamp_size(requested: int) -> int {
        if requested < 2 {
            2
        } else {
            requested
        }
    }

    /// The grid's construction invariant: the edge length is at least 2 and
    /// the cell count is its square, small enough that the largest `usize`
    /// stays free as a sentinel.
    pub open spec fn wf(&self) -> bool {
        &&& 2 <= self.spec_size()
        &&& self.spec_capacity() == self.spec_size() * self.spec_size()
        &&& self.spec_capacity() < usize::MAX as int
    }

    /// A grid of the requested edge length, clamped to the minimum of 2.
    pub fn new(requested: usize) -> (g: Grid)
        requires
            Grid::clamp_size(requested as int) * Grid::clamp_size(requested as int) < usize::MAX
                as int,
        ensures
            g.wf(),
            g.spec_size() == Grid::clamp_size(requested as int),
    {
        let size = if requested < 2 {
            2
        } else {
            requested
        };
        let capacity = size * size;
        Grid { size, capacity }
    }

    /// The edge length.
    pub fn size(&self) -> (s: usize)
        ensures
            s as int == self.spec_size(),
    {
        self.size
    }

    /// The cell count.
    pub fn capacity(&self) -> (c: usize)
        ensures
            c as int == self.spec_capacity(),
    {
        self.capacity
    }

    /// The toroidally wrapped neighbor of cell `idx`, one step in `dir`.
    pub fn neighbor(&self, idx: usize, dir: Direction) -> (r: usize)
        requires
            self.wf(),
            (idx as int) < self.spec_capacity(),
        ensures
            r as int == next_cell_spec(idx as int, self.spec_size(), dir),
            (r as int) < self.spec_capacity(),
    {
        proof {
            lemma_cell_decompose(idx as int, self.spec_size());
            lemma_next_cell_in_range(idx as int, self.spec_size(), dir);
        }
        let row = idx / self.size;
        let col = idx % self.size;
        match dir {
            Direction::Up => {
                let new_row = if row == 0 {
                    self.size - 1
                } else {
                    row - 1
                };
                new_row * self.size + col
            },
            Direction::Down => {
                let new_row = if row == self.size - 1 {
                    0
                } else {
                    row + 1
                };
                new_row * self.size + col
            },
            Direction::Left => {
                let new_col = if col == 0 {
                    self.size - 1
                } else {
                    col - 1
                };
                row * self.size + new_col
            },
            Direction::Right => {
                let new_col = if col == self.size - 1 {
                    0
                } else {
                    col + 1
                };
                row * self.size + new_col
            },
        }
    }
}

} // verus!
