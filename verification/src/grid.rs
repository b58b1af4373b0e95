//! The background grid of a level: a rectangular array of cells addressed by
//! block column and row.

use vstd::prelude::*;

use crate::background::BackgroundCell;

verus! {

/// Largest number of columns or rows a grid may have; keeps every pixel
/// coordinate inside the grid far from the `i32` limits.
pub const MAX_GRID_DIM: usize = 4096;

/// Rectangular grid of background cells, stored row by row.
#[derive(Debug)]
pub struct BackgroundGrid {
    width: usize,
    height: usize,
    rows: Vec<Vec<BackgroundCell>>,
}

impl BackgroundGrid {
    #[verifier::type_invariant]
    spec fn wf(self) -> bool {
        &&& self.width <= MAX_GRID_DIM
        &&& self.height <= MAX_GRID_DIM
        &&& self.rows.len() == self.height
        &&& forall|r: int| 0 <= r < self.rows.len() ==> #[trigger] self.rows@[r]@.len() == self.width
    }

    /// Number of columns.
    pub closed spec fn spec_width(&self) -> int {
        self.width as int
    }

    /// Number of rows.
    pub closed spec fn spec_height(&self) -> int {
        self.height as int
    }

    /// The cell at column `x`, row `y` (meaningful when in bounds).
    pub closed spec fn cell(&self, x: int, y: int) -> BackgroundCell {
        self.rows@[y]@[x]
    }

    /// `(x, y)` addresses a cell of the grid.
    pub open spec fn in_bounds(&self, x: int, y: int) -> bool {
        0 <= x < self.spec_width() && 0 <= y < self.spec_height()
    }

    /// Builds a grid from its rows; `None` when the rows are ragged or
    /// larger than [`MAX_GRID_DIM`] in either direction. No rows make an
    /// empty grid, in which every cell is off the map.
    pub fn new(rows: Vec<Vec<BackgroundCell>>) -> (r: Option<BackgroundGrid>)
        ensures
            r is Some <==> (rows@.len() <= MAX_GRID_DIM && (rows@.len() > 0 ==> (rows@[0].len()
                <= MAX_GRID_DIM && forall|i: int|
                0 <= i < rows@.len() ==> #[trigger] rows@[i]@.len() == rows@[0]@.len()))),
            r matches Some(g) ==> (g.spec_width() == (if rows@.len() == 0 { 0 } else { rows@[0].len() as int })
                && g.spec_height() == rows@.len() && forall|x: int, y: int|
                g.in_bounds(x, y) ==> #[trigger] g.cell(x, y) == rows@[y]@[x]),
    {
        let height = rows.len();
        if height > MAX_GRID_DIM {
            return None;
        }
        if height == 0 {
            return Some(BackgroundGrid { width: 0, height: 0, rows });
        }
        let width = rows[0].len();
        if width > MAX_GRID_DIM {
            return None;
        }
        let mut i: usize = 0;
        while i < height
            invariant
                height == rows@.len(),
                width == rows@[0].len(),
                0 <= i <= height,
                forall|j: int| 0 <= j < i ==> #[trigger] rows@[j]@.len() == width,
            decreases height - i,
        {
            if rows[i].len() != width {
                return None;
            }
            i = i + 1;
        }
        Some(BackgroundGrid { width, height, rows })
    }

    /// A `width` by `height` grid with every cell equal to `cell`.
    pub fn filled(width: usize, height: usize, cell: BackgroundCell) -> (r: BackgroundGrid)
        requires
            1 <= width <= MAX_GRID_DIM,
            1 <= height <= MAX_GRID_DIM,
        ensures
            r.spec_width() == width,
            r.spec_height() == height,
            forall|x: int, y: int| r.in_bounds(x, y) ==> #[trigger] r.cell(x, y) == cell,
    {
        let mut rows: Vec<Vec<BackgroundCell>> = Vec::new();
        let mut j: usize = 0;
        while j < height
            invariant
                0 <= j <= height,
                rows@.len() == j,
                forall|r: int| 0 <= r < j ==> #[trigger] rows@[r]@.len() == width,
                forall|r: int, c: int|
                    0 <= r < j && 0 <= c < width ==> #[trigger] rows@[r]@[c] == cell,
            decreases height - j,
        {
            let mut row: Vec<BackgroundCell> = Vec::new();
            let mut i: usize = 0;
            while i < width
                invariant
                    0 <= i <= width,
                    row@.len() == i,
                    forall|c: int| 0 <= c < i ==> #[trigger] row@[c] == cell,
                decreases width - i,
            {
                row.push(cell);
                i = i + 1;
            }
            rows.push(row);
            j = j + 1;
        }
        BackgroundGrid { width, height, rows }
    }

    /// Number of columns.
    pub fn width(&self) -> (r: usize)
        ensures
            r == self.spec_width(),
            r <= MAX_GRID_DIM,
    {
        proof {
            use_type_invariant(self);
        }
        self.width
    }

    /// Number of rows.
    pub fn height(&self) -> (r: usize)
        ensures
            r == self.spec_height(),
            r <= MAX_GRID_DIM,
    {
        proof {
            use_type_invariant(self);
        }
        self.height
    }

    /// The cell at column `x`, row `y`, or `None` outside the grid.
    pub fn get(&self, x: usize, y: usize) -> (r: Option<BackgroundCell>)
        ensures
            r == (if self.in_bounds(x as int, y as int) {
                Some(self.cell(x as int, y as int))
            } else {
                None
            }),
    {
        proof {
            use_type_invariant(self);
        }
        if y < self.height && x < self.width {
            Some(self.rows[y][x])
        } else {
            None
        }
    }

    /// Replaces the cell at column `x`, row `y`; no change outside the grid.
    pub fn set(&mut self, x: usize, y: usize, cell: BackgroundCell)
        ensures
            final(self).spec_width() == old(self).spec_width(),
            final(self).spec_height() == old(self).spec_height(),
            forall|cx: int, cy: int|
                #![trigger final(self).cell(cx, cy)]
                final(self).in_bounds(cx, cy) ==> final(self).cell(cx, cy) == (if cx == x && cy
                    == y {
                    cell
                } else {
                    old(self).cell(cx, cy)
                }),
    {
        proof {
            use_type_invariant(&*self);
        }
        let width = self.width;
        let height = self.height;
        let mut rows: Vec<Vec<BackgroundCell>> = Vec::new();
        let mut j: usize = 0;
        while j < height
            invariant
                width == self.width,
                height == self.height,
                self.rows@.len() == height,
                forall|r: int| 0 <= r < height ==> #[trigger] self.rows@[r]@.len() == width,
                0 <= j <= height,
                rows@.len() == j,
                forall|r: int| 0 <= r < j ==> #[trigger] rows@[r]@.len() == width,
                forall|r: int, c: int|
                    0 <= r < j && 0 <= c < width ==> #[trigger] rows@[r]@[c] == (if c == x && r
                        == y {
                        cell
                    } else {
                        self.rows@[r]@[c]
                    }),
            decreases height - j,
        {
            let mut row: Vec<BackgroundCell> = Vec::new();
            let mut i: usize = 0;
            while i < width
                invariant
                    width == self.width,
                    height == self.height,
                    self.rows@.len() == height,
                    forall|r: int| 0 <= r < height ==> #[trigger] self.rows@[r]@.len() == width,
                    0 <= j < height,
                    0 <= i <= width,
                    row@.len() == i,
                    forall|c: int|
                        0 <= c < i ==> #[trigger] row@[c] == (if c == x && j == y {
                            cell
                        } else {
                            self.rows@[j as int]@[c]
                        }),
                decreases width - i,
            {
                let c = if i == x && j == y {
                    cell
                } else {
                    self.rows[j][i]
                };
                row.push(c);
                i = i + 1;
            }
            rows.push(row);
            j = j + 1;
        }
        *self = BackgroundGrid { width, height, rows };
    }
}

} // verus!
