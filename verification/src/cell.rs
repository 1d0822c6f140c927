//! A single cell of the grid: one boolean life state.

use vstd::prelude::*;

verus! {

/// One cell. Its abstract value (the view) is its life state: `true` for
/// alive, `false` for dead.
#[derive(Clone, Copy)]
pub struct Cell {
    _alive: bool,
}

impl View for Cell {
    type V = bool;

    closed spec fn view(&self) -> bool {
        self._alive
    }
}

impl Cell {
    /// Sets the cell alive.
    pub fn arise(&mut self)
        ensures
            final(self)@ == true,
    {
        self._alive = true;
    }

    /// Sets the cell dead.
    pub fn die(&mut self)
        ensures
            final(self)@ == false,
    {
        self._alive = false;
    }

    /// Sets the life state to `value`.
    pub fn set_alive(&mut self, value: bool)
        ensures
            final(self)@ == value,
    {
        self._alive = value;
    }

    /// Returns the life state.
    pub fn is_alive(&self) -> (alive: bool)
        ensures
            alive == self@,
    {
        self._alive
    }

    /// Builder form of `set_alive`: returns the cell with its life state
    /// set to `value`.
    pub fn alive(self, value: bool) -> (cell: Cell)
        ensures
            cell@ == value,
    {
        Cell { _alive: value }
    }
}

impl Default for Cell {
    /// A default-constructed cell is dead.
    fn default() -> (cell: Cell)
        ensures
            cell@ == false,
    {
        Cell { _alive: false }
    }
}

} // verus!
