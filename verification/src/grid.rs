//! The data holder: a fixed-size rectangular grid of cells, with random
//! construction, bounds-checked accessors, snapshots, and the step.

use vstd::prelude::*;
use crate::rng::random_bool;
use crate::rules::{grid_view, rectangular, step_view};
use crate::stepper::{snapshot_of, update};

verus! {

/// Why a grid operation refused to act.
#[derive(Clone, Copy, PartialEq, Eq, Structural, Debug)]
pub enum GridError {
    /// A coordinate outside the grid extents was handed to an accessor.
    OutOfBounds,
    /// Rows of unequal length were handed to a constructor.
    InvalidGrid,
}

/// A height x width grid of cells, each alive or dead. The dimensions are
/// fixed at construction and never change.
#[derive(Debug)]
pub struct Grid {
    pub width: usize,
    pub height: usize,
    pub cells: Vec<Vec<bool>>,
}

impl View for Grid {
    type V = Seq<Seq<bool>>;

    open spec fn view(&self) -> Seq<Seq<bool>> {
        grid_view(self.cells@)
    }
}

impl Grid {
    /// Storage and dimensions agree: height rows, each of width cells.
    pub open spec fn wf(self) -> bool {
        self@.len() == self.height && forall|y: int|
            0 <= y < self@.len() ==> (#[trigger] self@[y]).len() == self.width
    }

    /// Construct a height x width grid, each cell independently alive or
    /// dead by a fair coin flip. A width or height of 0 yields a degenerate
    /// empty grid.
    pub fn new(width: usize, height: usize) -> (g: Grid)
        ensures
            g.wf(),
            g.width == width,
            g.height == height,
    {
        let mut cells: Vec<Vec<bool>> = Vec::new();
        let mut y: usize = 0;
        while y < height
            invariant
                y <= height,
                cells@.len() == y,
                forall|i: int| 0 <= i < y ==> (#[trigger] cells@[i])@.len() == width,
            decreases height - y,
        {
            let mut row: Vec<bool> = Vec::new();
            let mut x: usize = 0;
            while x < width
                invariant
                    x <= width,
                    row@.len() == x,
                decreases width - x,
            {
                row.push(random_bool());
                x = x + 1;
            }
            cells.push(row);
            y = y + 1;
        }
        let g = Grid { width, height, cells };
        assert forall|i: int| 0 <= i < g@.len() implies (#[trigger] g@[i]).len() == width by {
            assert(g@[i] == g.cells@[i]@);
        }
        g
    }

    /// Adopt the given rows as a grid. Rows of unequal length are rejected
    /// with InvalidGrid; otherwise the grid holds exactly the given values,
    /// with the height of the row count and the width of the first row (0
    /// when there is none).
    pub fn from_rows(rows: Vec<Vec<bool>>) -> (r: Result<Grid, GridError>)
        ensures
            rectangular(grid_view(rows@)) ==> (match r {
                Ok(g) => g.wf() && g@ == grid_view(rows@) && g.height == rows@.len() && (rows@.len()
                    == 0 ==> g.width == 0) && (rows@.len() > 0 ==> g.width == rows@[0]@.len()),
                Err(_) => false,
            }),
            !rectangular(grid_view(rows@)) ==> r == Err::<Grid, GridError>(GridError::InvalidGrid),
    {
        let height: usize = rows.len();
        let width: usize = if height == 0 {
            0
        } else {
            rows[0].len()
        };
        let mut y: usize = 0;
        while y < height
            invariant
                height == rows@.len(),
                height > 0 ==> width == rows@[0]@.len(),
                y <= height,
                forall|i: int| 0 <= i < y ==> (#[trigger] rows@[i])@.len() == width,
            decreases height - y,
        {
            if rows[y].len() != width {
                assert(!rectangular(grid_view(rows@))) by {
                    assert(grid_view(rows@)[y as int].len() != grid_view(rows@)[0].len());
                }
                return Err(GridError::InvalidGrid);
            }
            y = y + 1;
        }
        let g = Grid { width, height, cells: rows };
        assert(rectangular(g@) && g.wf()) by {
            assert(forall|i: int| 0 <= i < g@.len() ==> (#[trigger] g@[i]).len() == width);
        }
        Ok(g)
    }

    /// Read the cell at (x, y); a position outside the extents is refused
    /// with OutOfBounds.
    pub fn get(&self, x: usize, y: usize) -> (r: Result<bool, GridError>)
        requires
            self.wf(),
        ensures
            x < self.width && y < self.height ==> r == Ok::<bool, GridError>(
                self@[y as int][x as int],
            ),
            !(x < self.width && y < self.height) ==> r == Err::<bool, GridError>(
                GridError::OutOfBounds,
            ),
    {
        if y < self.height && x < self.width {
            assert(self@[y as int].len() == self.width);
            assert(self@[y as int] == self.cells@[y as int]@);
            Ok(self.cells[y][x])
        } else {
            Err(GridError::OutOfBounds)
        }
    }

    /// Write the cell at (x, y); a position outside the extents is refused
    /// with OutOfBounds and the grid is left as it was.
    pub fn set(&mut self, x: usize, y: usize, alive: bool) -> (r: Result<(), GridError>)
        requires
            old(self).wf(),
        ensures
            final(self).wf(),
            final(self).width == old(self).width,
            final(self).height == old(self).height,
            x < old(self).width && y < old(self).height ==> r == Ok::<(), GridError>(())
                && final(self)@ == old(self)@.update(
                y as int,
                old(self)@[y as int].update(x as int, alive),
            ),
            !(x < old(self).width && y < old(self).height) ==> r == Err::<(), GridError>(
                GridError::OutOfBounds,
            ) && final(self)@ == old(self)@,
    {
        if y < self.height && x < self.width {
            let ghost rows0: Seq<Vec<bool>> = self.cells@;
            assert(self@[y as int].len() == self.width);
            assert(self@[y as int] == self.cells@[y as int]@);
            let mut row: Vec<bool> = self.cells.remove(y);
            row[x] = alive;
            self.cells.insert(y, row);
            proof {
                rows0.remove_ensures(y as int);
                rows0.remove(y as int).insert_ensures(y as int, row);
                assert(self.cells@ =~= rows0.update(y as int, row));
                assert(grid_view(self.cells@) =~= grid_view(rows0).update(
                    y as int,
                    grid_view(rows0)[y as int].update(x as int, alive),
                ));
            }
            Ok(())
        } else {
            Err(GridError::OutOfBounds)
        }
    }

    /// A read-only full copy of the current alive values, indexed as the
    /// grid is.
    pub fn snapshot(&self) -> (s: Vec<Vec<bool>>)
        ensures
            grid_view(s@) == self@,
    {
        snapshot_of(&self.cells)
    }

    /// Advance the grid one generation under the fixed rule. The dimensions
    /// never change, and every new value is derived from the old generation
    /// alone.
    pub fn step(&mut self)
        requires
            old(self).wf(),
        ensures
            final(self).wf(),
            final(self).width == old(self).width,
            final(self).height == old(self).height,
            final(self)@ == step_view(old(self)@),
    {
        update(&mut self.cells);
        assert forall|y: int| 0 <= y < self@.len() implies (#[trigger] self@[y]).len()
            == self.width by {
            assert(step_view(old(self)@)[y].len() == old(self)@[y].len());
        }
    }
}

} // verus!
