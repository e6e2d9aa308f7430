//! The tile map: an immutable square grid of occupancy cells.
//!
//! Cells are stored row-major as bytes, `1` for a wall and anything
//! else for open floor, with `index(x, y) = y * side + x`. The grid is
//! fixed at construction; a mismatched cell count is rejected there.

use vstd::prelude::*;
use crate::SIDE_MAX;

verus! {

/// A square grid of wall / open cells, `side` cells to an edge.
pub struct Grid {
    /// Edge length in cells.
    pub side: usize,
    /// Row-major occupancy: `cells[y * side + x]` is `1` for a wall.
    pub cells: Vec<u8>,
}

impl Grid {
    /// A well-formed grid holds exactly `side * side` cells.
    pub open spec fn wf(self) -> bool {
        1 <= self.side <= SIDE_MAX && self.cells@.len() == self.side * self.side
    }

    /// Whether the cell at `(x, y)` is a wall; meaningful for
    /// `0 <= x, y < side`.
    pub open spec fn wall(self, x: int, y: int) -> bool {
        self.cells@[y * self.side + x] == 1
    }

    /// Builds a grid from its edge length and row-major cells,
    /// rejecting a cell count that does not match the edge length.
    pub fn new(side: usize, cells: Vec<u8>) -> (r: Option<Grid>)
        ensures
            r is Some <==> 1 <= side <= SIDE_MAX && cells@.len() == side * side,
            r matches Some(g) ==> g.side == side && g.cells@ == cells@ && g.wf(),
    {
        if side < 1 || side > SIDE_MAX {
            return None;
        }
        proof {
            assert(side * side <= SIDE_MAX * SIDE_MAX) by (nonlinear_arith)
                requires side <= SIDE_MAX;
        }
        if cells.len() == side * side {
            Some(Grid { side, cells })
        } else {
            None
        }
    }

    /// Reads one cell's occupancy.
    pub fn is_wall(&self, x: usize, y: usize) -> (r: bool)
        requires
            self.wf(),
            x < self.side,
            y < self.side,
        ensures
            r == self.wall(x as int, y as int),
    {
        proof {
            assert(y * self.side + x < self.side * self.side) by (nonlinear_arith)
                requires x < self.side, y < self.side;
            assert(y * self.side + x < SIDE_MAX * SIDE_MAX) by (nonlinear_arith)
                requires x < self.side, y < self.side, self.side <= SIDE_MAX;
        }
        self.cells[y * self.side + x] == 1
    }
}

} // verus!
