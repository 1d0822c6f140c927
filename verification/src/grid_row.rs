//! One row of the grid: an ordered, fixed-length sequence of cells.

use vstd::prelude::*;

use crate::cell::Cell;

verus! {

/// A row of cells. Its abstract value is the sequence of the cells' life
/// states. The length is fixed at construction; every operation preserves
/// it.
pub struct GridRow {
    row: Vec<Cell>,
}

impl View for GridRow {
    type V = Seq<bool>;

    closed spec fn view(&self) -> Seq<bool> {
        Seq::new(self.row@.len(), |i: int| self.row@[i]@)
    }
}

impl GridRow {
    /// Creates a row of `size` dead cells.
    pub fn new(size: usize) -> (row: GridRow)
        ensures
            row@ == Seq::new(size as nat, |i: int| false),
    {
        let mut cells: Vec<Cell> = Vec::new();
        let mut i: usize = 0;
        while i < size
            invariant
                i <= size,
                cells@.len() == i,
                forall|j: int| 0 <= j < i ==> #[trigger] cells@[j]@ == false,
            decreases size - i,
        {
            cells.push(Cell::default());
            i = i + 1;
        }
        let row = GridRow { row: cells };
        proof {
            assert(row@ =~= Seq::new(size as nat, |i: int| false));
        }
        row
    }

    /// The number of cells in the row.
    pub fn len(&self) -> (n: usize)
        ensures
            n == self@.len(),
    {
        self.row.len()
    }

    /// Reads the cell at position `index`; out of range is a boundary
    /// violation and is excluded by the precondition.
    pub fn get(&self, index: usize) -> (cell: Cell)
        requires
            index < self@.len(),
        ensures
            cell@ == self@[index as int],
    {
        self.row[index]
    }

    /// Writes the life state `value` into the cell at position `index`.
    pub fn set_alive(&mut self, index: usize, value: bool)
        requires
            index < old(self)@.len(),
        ensures
            final(self)@ == old(self)@.update(index as int, value),
    {
        let mut cell = self.row[index];
        cell.set_alive(value);
        self.row[index] = cell;
        proof {
            assert(self@ =~= old(self)@.update(index as int, value));
        }
    }

    /// An independent copy of the row, cell for cell.
    pub fn duplicate(&self) -> (copy: GridRow)
        ensures
            copy@ == self@,
    {
        let mut cells: Vec<Cell> = Vec::new();
        let mut i: usize = 0;
        let n = self.row.len();
        while i < n
            invariant
                i <= n,
                n == self.row@.len(),
                cells@.len() == i,
                forall|j: int| 0 <= j < i ==> #[trigger] cells@[j]@ == self.row@[j]@,
            decreases n - i,
        {
            cells.push(self.row[i]);
            i = i + 1;
        }
        let copy = GridRow { row: cells };
        proof {
            assert(copy@ =~= self@);
        }
        copy
    }
}

} // verus!
