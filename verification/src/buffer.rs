//! A modelled terminal cell buffer: a rectangle of cells in row-major
//! order, each holding a glyph and its colors. The widget paints into this
//! model; turning it into real terminal output is the caller's business.

use crate::color::Color;
use vstd::arithmetic::mul::lemma_mul_upper_bound;
use vstd::pervasive::VecAdditionalExecFns;
use vstd::prelude::*;

verus! {

/// A rectangular region of the cell grid, in cell coordinates.
#[derive(Clone, Copy, PartialEq, Eq, Structural, Debug)]
pub struct Rect {
    pub x: u16,
    pub y: u16,
    pub width: u16,
    pub height: u16,
}

impl Rect {
    /// First column past the region.
    pub open spec fn right(self) -> int {
        self.x + self.width
    }

    /// First row past the region.
    pub open spec fn bottom(self) -> int {
        self.y + self.height
    }

    /// The region covers the cell at (x, y).
    pub open spec fn contains(self, x: int, y: int) -> bool {
        self.x <= x < self.right() && self.y <= y < self.bottom()
    }

    /// A degenerate region with no cells.
    pub open spec fn is_empty_spec(self) -> bool {
        self.width == 0 || self.height == 0
    }

    /// Whether the region has no cells.
    pub fn is_empty(&self) -> (r: bool)
        ensures
            r == self.is_empty_spec(),
    {
        self.width == 0 || self.height == 0
    }

    /// The interior left after an enclosing one-cell border; empty when the
    /// region is too thin to have one.
    pub open spec fn inner_spec(self) -> Rect {
        if self.width < 2 || self.height < 2 {
            Rect { x: self.x, y: self.y, width: 0, height: 0 }
        } else {
            Rect {
                x: (self.x + 1) as u16,
                y: (self.y + 1) as u16,
                width: (self.width - 2) as u16,
                height: (self.height - 2) as u16,
            }
        }
    }

    /// The interior left after an enclosing one-cell border.
    pub fn inner(&self) -> (r: Rect)
        requires
            self.right() <= u16::MAX,
            self.bottom() <= u16::MAX,
        ensures
            r == self.inner_spec(),
    {
        if self.width < 2 || self.height < 2 {
            Rect { x: self.x, y: self.y, width: 0, height: 0 }
        } else {
            Rect { x: self.x + 1, y: self.y + 1, width: self.width - 2, height: self.height - 2 }
        }
    }

    /// Whether the region covers the cell at (x, y).
    pub fn contains_cell(&self, x: u16, y: u16) -> (r: bool)
        requires
            self.right() <= u16::MAX,
            self.bottom() <= u16::MAX,
        ensures
            r == self.contains(x as int, y as int),
    {
        self.x <= x && x < self.x + self.width && self.y <= y && y < self.y + self.height
    }
}

/// One terminal cell: a glyph and its foreground and background colors.
#[derive(Clone, Copy, PartialEq, Eq, Structural, Debug)]
pub struct Cell {
    pub symbol: char,
    pub fg: Color,
    pub bg: Color,
}

impl Cell {
    /// A blank cell with reset colors.
    pub open spec fn default_spec() -> Cell {
        Cell { symbol: ' ', fg: Color::Reset, bg: Color::Reset }
    }
}

/// Row-major position of a cell in the backing vector.
pub open spec fn row_major(x: int, y: int, width: int) -> int {
    y * width + x
}

proof fn lemma_row_major_bounds(x: int, y: int, w: int, h: int)
    requires
        0 <= x < w,
        0 <= y < h,
    ensures
        0 <= row_major(x, y, w) < w * h,
{
    assert(0 <= y * w + x < w * h) by (nonlinear_arith)
        requires
            0 <= x < w,
            0 <= y < h,
    ;
}

proof fn lemma_row_major_injective(x1: int, y1: int, x2: int, y2: int, w: int)
    requires
        0 <= x1 < w,
        0 <= x2 < w,
        0 <= y1,
        0 <= y2,
        row_major(x1, y1, w) == row_major(x2, y2, w),
    ensures
        x1 == x2 && y1 == y2,
{
    assert(x1 == x2 && y1 == y2) by (nonlinear_arith)
        requires
            0 <= x1 < w,
            0 <= x2 < w,
            0 <= y1,
            0 <= y2,
            y1 * w + x1 == y2 * w + x2,
    ;
}

/// The whole cell grid of a terminal region, origin at (0, 0).
#[derive(Clone, PartialEq, Debug)]
pub struct Buffer {
    pub width: u16,
    pub height: u16,
    pub cells: Vec<Cell>,
}

impl Buffer {
    /// The backing vector holds exactly one cell per grid position.
    pub open spec fn wf(self) -> bool {
        self.cells.len() == self.width * self.height
    }

    /// The cell at column x, row y.
    pub open spec fn cell_at(self, x: int, y: int) -> Cell {
        self.cells[row_major(x, y, self.width as int)]
    }

    /// A fresh grid of blank cells.
    pub fn new(width: u16, height: u16) -> (b: Buffer)
        ensures
            b.wf(),
            b.width == width,
            b.height == height,
            forall|x: int, y: int|
                0 <= x < width && 0 <= y < height ==> #[trigger] b.cell_at(x, y)
                    == Cell::default_spec(),
    {
        proof {
            lemma_mul_upper_bound(width as int, 0xFFFF, height as int, 0xFFFF);
        }
        let n: usize = (width as usize) * (height as usize);
        let mut cells: Vec<Cell> = Vec::new();
        while cells.len() < n
            invariant
                cells.len() <= n,
                forall|i: int| 0 <= i < cells.len() ==> cells[i] == Cell::default_spec(),
            decreases n - cells.len(),
        {
            cells.push(Cell { symbol: ' ', fg: Color::Reset, bg: Color::Reset });
        }
        let b = Buffer { width, height, cells };
        proof {
            assert forall|x: int, y: int| 0 <= x < width && 0 <= y < height implies #[trigger] b
                .cell_at(x, y) == Cell::default_spec() by {
                lemma_row_major_bounds(x, y, width as int, height as int);
            }
        }
        b
    }

    /// Read the cell at (x, y).
    pub fn get(&self, x: u16, y: u16) -> (c: Cell)
        requires
            self.wf(),
            x < self.width,
            y < self.height,
        ensures
            c == self.cell_at(x as int, y as int),
    {
        proof {
            lemma_row_major_bounds(x as int, y as int, self.width as int, self.height as int);
        }
        let idx: usize = (y as usize) * (self.width as usize) + (x as usize);
        self.cells[idx]
    }

    /// Overwrite the cell at (x, y), leaving every other cell as it was.
    pub fn set(&mut self, x: u16, y: u16, c: Cell)
        requires
            old(self).wf(),
            x < old(self).width,
            y < old(self).height,
        ensures
            final(self).wf(),
            final(self).width == old(self).width,
            final(self).height == old(self).height,
            final(self).cell_at(x as int, y as int) == c,
            forall|i: int, j: int|
                0 <= i < old(self).width && 0 <= j < old(self).height && !(i == x && j == y)
                    ==> #[trigger] final(self).cell_at(i, j) == old(self).cell_at(i, j),
    {
        proof {
            lemma_row_major_bounds(x as int, y as int, self.width as int, self.height as int);
        }
        let idx: usize = (y as usize) * (self.width as usize) + (x as usize);
        self.cells.set(idx, c);
        proof {
            assert forall|i: int, j: int|
                0 <= i < old(self).width && 0 <= j < old(self).height && !(i == x && j == y)
                    implies #[trigger] self.cell_at(i, j) == old(self).cell_at(i, j) by {
                lemma_row_major_bounds(i, j, self.width as int, self.height as int);
                if row_major(i, j, self.width as int) == row_major(
                    x as int,
                    y as int,
                    self.width as int,
                ) {
                    lemma_row_major_injective(i, j, x as int, y as int, self.width as int);
                }
            }
        }
    }
}

} // verus!
