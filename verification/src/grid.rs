//! The grid: a fixed-size two-dimensional arrangement of rows, owner of
//! the step algorithm.

use vstd::prelude::*;

use crate::cell::Cell;
use crate::grid_row::GridRow;
use crate::life::{alive_at, grid_dims, dead_grid, maybe_cell, neighbor_cells, neighbor_count,
    next_state, step};

verus! {

/// The life states of a sequence of cells, in order.
pub open spec fn life_states(cells: Seq<Cell>) -> Seq<bool> {
    Seq::new(cells.len(), |i: int| cells[i]@)
}

/// A grid of `rows` rows of `cols` cells. Its abstract value is the
/// sequence of its rows' life states. A grid is constructed once and then
/// only mutated in place; it is never resized.
pub struct Grid {
    internal_grid: Vec<GridRow>,
    cols: usize,
    rows: usize,
}

impl View for Grid {
    type V = Seq<Seq<bool>>;

    closed spec fn view(&self) -> Seq<Seq<bool>> {
        Seq::new(self.internal_grid@.len(), |y: int| self.internal_grid@[y]@)
    }
}

impl Grid {
    /// The fixed row width.
    pub closed spec fn spec_width(&self) -> int {
        self.cols as int
    }

    /// The fixed row count.
    pub closed spec fn spec_height(&self) -> int {
        self.rows as int
    }

    /// The structural invariant: the row count equals the fixed height and
    /// every row's length equals the fixed width. Constructors establish
    /// it and every method preserves it.
    pub open spec fn wf(&self) -> bool {
        grid_dims(self@, self.spec_width(), self.spec_height())
    }

    /// Creates a grid of `y` rows of `x` dead cells.
    pub fn new(x: usize, y: usize) -> (grid: Grid)
        ensures
            grid.wf(),
            grid.spec_width() == x,
            grid.spec_height() == y,
            grid@ == dead_grid(x as int, y as int),
    {
        let mut grid_rows: Vec<GridRow> = Vec::new();
        let mut i: usize = 0;
        while i < y
            invariant
                i <= y,
                grid_rows@.len() == i,
                forall|j: int| 0 <= j < i ==> #[trigger] grid_rows@[j]@ == Seq::new(
                    x as nat,
                    |i: int| false,
                ),
            decreases y - i,
        {
            grid_rows.push(GridRow::new(x));
            i = i + 1;
        }
        let grid = Grid { internal_grid: grid_rows, cols: x, rows: y };
        proof {
            assert(grid@ =~~= dead_grid(x as int, y as int));
        }
        grid
    }

    /// The row width, `cols`.
    pub fn width(&self) -> (w: usize)
        ensures
            w == self.spec_width(),
    {
        self.cols
    }

    /// The row count, `rows`.
    pub fn height(&self) -> (h: usize)
        ensures
            h == self.spec_height(),
    {
        self.rows
    }

    /// Reads the cell at column `x`, row `y`. Out-of-range access is a
    /// boundary violation and is excluded by the precondition.
    pub fn get_cell(&self, x: usize, y: usize) -> (cell: Cell)
        requires
            self.wf(),
            x < self.spec_width(),
            y < self.spec_height(),
        ensures
            cell@ == self@[y as int][x as int],
    {
        proof {
            assert(self@[y as int].len() == self.spec_width());
        }
        self.internal_grid[y].get(x)
    }

    /// Writes the life state `value` into the cell at column `x`, row `y`.
    pub fn set_alive(&mut self, x: usize, y: usize, value: bool)
        requires
            old(self).wf(),
            x < old(self).spec_width(),
            y < old(self).spec_height(),
        ensures
            final(self).wf(),
            final(self).spec_width() == old(self).spec_width(),
            final(self).spec_height() == old(self).spec_height(),
            final(self)@ == old(self)@.update(
                y as int,
                old(self)@[y as int].update(x as int, value),
            ),
    {
        proof {
            assert(old(self)@[y as int].len() == old(self).spec_width());
        }
        let row: &mut GridRow = &mut self.internal_grid[y];
        row.set_alive(x, value);
        proof {
            assert(self@ =~= old(self)@.update(
                y as int,
                old(self)@[y as int].update(x as int, value),
            ));
        }
    }

    /// A full, independent copy of the grid: same dimensions, same life
    /// state in every cell.
    pub fn snapshot(&self) -> (copy: Grid)
        requires
            self.wf(),
        ensures
            copy.wf(),
            copy.spec_width() == self.spec_width(),
            copy.spec_height() == self.spec_height(),
            copy@ == self@,
    {
        let mut grid_rows: Vec<GridRow> = Vec::new();
        let mut i: usize = 0;
        while i < self.rows
            invariant
                self.wf(),
                i <= self.rows,
                grid_rows@.len() == i,
                forall|j: int| 0 <= j < i ==> #[trigger] grid_rows@[j]@ == self@[j],
            decreases self.rows - i,
        {
            grid_rows.push(self.internal_grid[i].duplicate());
            i = i + 1;
        }
        let copy = Grid { internal_grid: grid_rows, cols: self.cols, rows: self.rows };
        proof {
            assert(copy@ =~= self@);
        }
        copy
    }

    /// Appends the cell at `(x, y)` to `acc` when the coordinate falls
    /// inside the grid, and leaves `acc` unchanged otherwise.
    fn push_neighbor(&self, acc: &mut Vec<Cell>, x: isize, y: isize)
        requires
            self.wf(),
        ensures
            life_states(final(acc)@) == life_states(old(acc)@) + maybe_cell(
                self@,
                x as int,
                y as int,
            ),
    {
        if x >= 0 && y >= 0 {
            let ux = x as usize;
            let uy = y as usize;
            if ux < self.cols && uy < self.rows {
                proof {
                    assert(self@[uy as int].len() == self.spec_width());
                }
                acc.push(self.internal_grid[uy].get(ux));
            }
        }
        proof {
            assert(life_states(acc@) =~= life_states(old(acc)@) + maybe_cell(
                self@,
                x as int,
                y as int,
            ));
        }
    }

    /// Returns the cells of the Moore neighborhood of `(x, y)` that fall
    /// within the grid, in the fixed enumeration order of
    /// `neighbor_cells`: corner cells get exactly 3, non-corner edge cells
    /// exactly 5, interior cells exactly 8. There is no wraparound.
    pub fn get_neighbors(&self, x: isize, y: isize) -> (neighbors: Vec<Cell>)
        requires
            self.wf(),
            isize::MIN < x < isize::MAX,
            isize::MIN < y < isize::MAX,
        ensures
            life_states(neighbors@) == neighbor_cells(self@, x as int, y as int),
    {
        let mut neighbors: Vec<Cell> = Vec::new();
        self.push_neighbor(&mut neighbors, x + 1, y - 1);
        self.push_neighbor(&mut neighbors, x + 1, y);
        self.push_neighbor(&mut neighbors, x + 1, y + 1);
        self.push_neighbor(&mut neighbors, x - 1, y - 1);
        self.push_neighbor(&mut neighbors, x - 1, y);
        self.push_neighbor(&mut neighbors, x - 1, y + 1);
        self.push_neighbor(&mut neighbors, x, y - 1);
        self.push_neighbor(&mut neighbors, x, y + 1);
        proof {
            assert(life_states(neighbors@) =~= neighbor_cells(self@, x as int, y as int));
        }
        neighbors
    }

    /// Whether `(x, y)` names an existing cell that is alive.
    fn is_live(&self, x: usize, y: usize) -> (live_cell: bool)
        requires
            self.wf(),
        ensures
            live_cell == alive_at(self@, x as int, y as int),
    {
        if x < self.cols && y < self.rows {
            proof {
                assert(self@[y as int].len() == self.spec_width());
            }
            self.internal_grid[y].get(x).is_alive()
        } else {
            false
        }
    }

    /// Counts the alive cells among the existing Moore neighbors of
    /// `(x, y)`.
    fn count_live_neighbors(&self, x: usize, y: usize) -> (count: usize)
        requires
            self.wf(),
            x < self.spec_width(),
            y < self.spec_height(),
        ensures
            count == neighbor_count(self@, x as int, y as int),
    {
        let mut count: usize = 0;
        if y >= 1 {
            if self.is_live(x + 1, y - 1) {
                count = count + 1;
            }
        }
        if self.is_live(x + 1, y) {
            count = count + 1;
        }
        if self.is_live(x + 1, y + 1) {
            count = count + 1;
        }
        if x >= 1 {
            if y >= 1 {
                if self.is_live(x - 1, y - 1) {
                    count = count + 1;
                }
            }
            if self.is_live(x - 1, y) {
                count = count + 1;
            }
            if self.is_live(x - 1, y + 1) {
                count = count + 1;
            }
        }
        if y >= 1 {
            if self.is_live(x, y - 1) {
                count = count + 1;
            }
        }
        if self.is_live(x, y + 1) {
            count = count + 1;
        }
        count
    }

    /// The step algorithm: advances the grid one generation in place. All
    /// neighbor counts are taken from a copy of the pre-step grid, so a
    /// cell's already-updated next state never pollutes a later cell's
    /// count within the same pass.
    pub fn iterate(&mut self)
        requires
            old(self).wf(),
        ensures
            final(self).wf(),
            final(self).spec_width() == old(self).spec_width(),
            final(self).spec_height() == old(self).spec_height(),
            final(self)@ == step(old(self)@),
    {
        let old_grid = self.snapshot();
        let rows = self.rows;
        let cols = self.cols;
        let mut y: usize = 0;
        while y < rows
            invariant
                self.wf(),
                self.spec_width() == cols,
                self.spec_height() == rows,
                old_grid.wf(),
                old_grid.spec_width() == cols,
                old_grid.spec_height() == rows,
                y <= rows,
                forall|yy: int, xx: int|
                    0 <= yy < y && 0 <= xx < cols ==> #[trigger] self@[yy][xx] == next_state(
                        old_grid@[yy][xx],
                        neighbor_count(old_grid@, xx, yy),
                    ),
                forall|yy: int, xx: int|
                    y <= yy < rows && 0 <= xx < cols ==> #[trigger] self@[yy][xx]
                        == old_grid@[yy][xx],
            decreases rows - y,
        {
            let mut x: usize = 0;
            while x < cols
                invariant
                    self.wf(),
                    self.spec_width() == cols,
                    self.spec_height() == rows,
                    old_grid.wf(),
                    old_grid.spec_width() == cols,
                    old_grid.spec_height() == rows,
                    y < rows,
                    x <= cols,
                    forall|yy: int, xx: int|
                        0 <= yy < y && 0 <= xx < cols ==> #[trigger] self@[yy][xx] == next_state(
                            old_grid@[yy][xx],
                            neighbor_count(old_grid@, xx, yy),
                        ),
                    forall|xx: int|
                        0 <= xx < x ==> #[trigger] self@[y as int][xx] == next_state(
                            old_grid@[y as int][xx],
                            neighbor_count(old_grid@, xx, y as int),
                        ),
                    forall|xx: int|
                        x <= xx < cols ==> #[trigger] self@[y as int][xx] == old_grid@[y as int][xx],
                    forall|yy: int, xx: int|
                        y < yy < rows && 0 <= xx < cols ==> #[trigger] self@[yy][xx]
                            == old_grid@[yy][xx],
                decreases cols - x,
            {
                let living_neighbors = old_grid.count_live_neighbors(x, y);
                let currently_alive = self.get_cell(x, y).is_alive();
                if currently_alive {
                    if living_neighbors == 2 || living_neighbors == 3 {
                        self.set_alive(x, y, true);
                    } else {
                        self.set_alive(x, y, false);
                    }
                } else {
                    if living_neighbors == 3 {
                        self.set_alive(x, y, true);
                    } else {
                        self.set_alive(x, y, false);
                    }
                }
                x = x + 1;
            }
            y = y + 1;
        }
        proof {
            assert(self@ =~~= step(old(self)@));
        }
    }
}

} // verus!
