//! An immutable width/height pair and the conversion of 2d coordinates to
//! linear, row-major indices.

use vstd::math::min;
use vstd::prelude::*;

verus! {

/// The size of a 2d grid: a width and a height in cells.
///
/// A cell `(x, y)` with `x < width` and `y < height` has the linear index
/// `x + y * width`.
#[derive(Clone, Copy, Debug, PartialEq, Eq, Structural)]
pub struct Size2d {
    pub width: u32,
    pub height: u32,
}

impl Size2d {
    /// The number of cells of the grid, as an unbounded integer.
    pub open spec fn spec_area(self) -> int {
        self.width * self.height
    }

    /// The linear index of the cell `(x, y)`.
    pub open spec fn spec_index(self, x: int, y: int) -> int {
        x + y * self.width
    }

    pub fn new(width: u32, height: u32) -> (s: Size2d)
        ensures
            s.width == width,
            s.height == height,
    {
        Size2d { width, height }
    }

    pub fn width(&self) -> (w: u32)
        ensures
            w == self.width,
    {
        self.width
    }

    pub fn height(&self) -> (h: u32)
        ensures
            h == self.height,
    {
        self.height
    }

    /// The number of cells of the grid.
    pub fn get_area(&self) -> (a: u64)
        ensures
            a == self.spec_area(),
    {
        proof {
            assert((self.width as int) * (self.height as int) <= u64::MAX) by (nonlinear_arith)
                requires
                    self.width <= u32::MAX && self.height <= u32::MAX,
            ;
        }
        (self.width as u64) * (self.height as u64)
    }

    /// Converts `(x, y)` to a linear index. Risky: the caller guarantees that
    /// the coordinates lie inside the grid and that the area fits the index
    /// type; the contract says nothing otherwise.
    pub fn to_index_risky(&self, x: u32, y: u32) -> (i: usize)
        requires
            x < self.width,
            y < self.height,
            self.spec_area() <= usize::MAX,
        ensures
            i == self.spec_index(x as int, y as int),
            i < self.spec_area(),
    {
        proof {
            lemma_index_in_area(*self, x as int, y as int);
        }
        (x as usize) + (y as usize) * (self.width as usize)
    }

    /// Converts `(x, y)` to a linear index after clamping each coordinate to
    /// the valid range, so any coordinates yield a valid index as long as the
    /// grid is not degenerate and its area fits the index type.
    pub fn saturating_to_index(&self, x: u32, y: u32) -> (i: usize)
        requires
            0 < self.spec_area() <= usize::MAX,
        ensures
            i == self.spec_index(
                min(x as int, self.width - 1),
                min(y as int, self.height - 1),
            ),
            i < self.spec_area(),
    {
        proof {
            assert(self.width > 0 && self.height > 0) by (nonlinear_arith)
                requires
                    0 < self.width * self.height,
            ;
        }
        let cx = if x < self.width {
            x
        } else {
            self.width - 1
        };
        let cy = if y < self.height {
            y
        } else {
            self.height - 1
        };
        proof {
            lemma_index_in_area(*self, cx as int, cy as int);
        }
        (cx as usize) + (cy as usize) * (self.width as usize)
    }
}

/// The index of a cell inside the grid lies below the grid's area.
pub proof fn lemma_index_in_area(s: Size2d, x: int, y: int)
    requires
        0 <= x < s.width,
        0 <= y < s.height,
    ensures
        0 <= s.spec_index(x, y) < s.spec_area(),
{
    assert(x + y * s.width < s.width * s.height) by (nonlinear_arith)
        requires
            0 <= x < s.width,
            0 <= y < s.height,
    ;
}

} // verus!
