//! The row-major toroidal grid.
//!
//! A grid is a fixed `width` by `height` array of binary cells stored row
//! major: the cell at column `x`, row `y` sits at flat index `y * width + x`.
//! Edges wrap, so every cell has exactly eight neighbours.

use vstd::prelude::*;

verus! {

/// A fixed-size two-dimensional binary grid.
pub struct Grid {
    /// Width in cells.
    pub width: usize,
    /// Height in cells.
    pub height: usize,
    /// The cells, row major: column `x` of row `y` at index `y * width + x`.
    pub cells: Vec<u32>,
}

impl View for Grid {
    type V = Seq<u32>;

    closed spec fn view(&self) -> Seq<u32> {
        self.cells@
    }
}

impl Grid {
    /// Well-formedness: positive dimensions, a cell count that fits the
    /// 32-bit population counters, exactly one stored value per cell, and
    /// every cell either dead (`0`) or alive (`1`).
    pub open spec fn wf(self) -> bool {
        &&& 1 <= self.width
        &&& 1 <= self.height
        &&& self.width * self.height <= u32::MAX
        &&& self@.len() == self.width * self.height
        &&& forall|i: int| 0 <= i < self@.len() ==> self@[i] == 0 || self@[i] == 1
    }

    /// Allocates an all-dead grid.
    pub fn new_dead(width: usize, height: usize) -> (g: Grid)
        requires
            1 <= width,
            1 <= height,
            width * height <= u32::MAX,
        ensures
            g.wf(),
            g.width == width,
            g.height == height,
            forall|i: int| 0 <= i < g@.len() ==> g@[i] == 0,
    {
        let n = width * height;
        let mut cells: Vec<u32> = Vec::new();
        let mut i: usize = 0;
        while i < n
            invariant
                i <= n,
                cells@.len() == i,
                forall|j: int| 0 <= j < i ==> cells@[j] == 0,
            decreases n - i,
        {
            cells.push(0);
            i = i + 1;
        }
        Grid { width, height, cells }
    }

    /// Reads the cell at column `x`, row `y`.
    pub fn get(&self, x: usize, y: usize) -> (v: u32)
        requires
            self.wf(),
            x < self.width,
            y < self.height,
        ensures
            v == self@[y * self.width + x],
    {
        proof {
            assert(y * self.width + x < self.width * self.height) by (nonlinear_arith)
                requires
                    x < self.width && y < self.height,
            ;
        }
        self.cells[y * self.width + x]
    }

    /// Writes `v` into the cell at column `x`, row `y`.
    pub fn set(&mut self, x: usize, y: usize, v: u32)
        requires
            old(self).wf(),
            x < old(self).width,
            y < old(self).height,
            v == 0 || v == 1,
        ensures
            final(self).wf(),
            final(self).width == old(self).width,
            final(self).height == old(self).height,
            final(self)@ == old(self)@.update(y * old(self).width + x, v),
    {
        proof {
            assert(y * self.width + x < self.width * self.height) by (nonlinear_arith)
                requires
                    x < self.width && y < self.height,
            ;
        }
        let idx = y * self.width + x;
        self.cells[idx] = v;
    }

    /// The grid as a flat row-major sequence of `0`/`1` values, for a
    /// consumer to display.
    pub fn cells(&self) -> (r: &Vec<u32>)
        ensures
            r@ == self@,
    {
        &self.cells
    }
}

} // verus!
