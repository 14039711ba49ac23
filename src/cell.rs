use vstd::prelude::*;

verus! {

/// The state of one cell of the grid.
#[derive(Clone, Copy, Debug, PartialEq, Eq, Structural)]
pub enum Cell {
    Dead,
    Alive,
}

/// What a cell adds to a neighbour count: one when it is alive.
pub open spec fn live(cell: Cell) -> nat {
    if cell == Cell::Alive {
        1
    } else {
        0
    }
}

/// The other state.
pub open spec fn flipped(cell: Cell) -> Cell {
    match cell {
        Cell::Alive => Cell::Dead,
        Cell::Dead => Cell::Alive,
    }
}

/// The classic Life rule: a live cell survives with two or three live
/// neighbours and dies otherwise; a dead cell comes alive with exactly three.
pub open spec fn rule(cell: Cell, live_neighbors: nat) -> Cell {
    match cell {
        Cell::Alive => if live_neighbors == 2 || live_neighbors == 3 {
            Cell::Alive
        } else {
            Cell::Dead
        },
        Cell::Dead => if live_neighbors == 3 {
            Cell::Alive
        } else {
            Cell::Dead
        },
    }
}

impl Cell {
    /// The contribution of this cell to a neighbour count.
    pub fn live_count(self) -> (r: u8)
        ensures
            r == live(self),
    {
        match self {
            Cell::Alive => 1,
            Cell::Dead => 0,
        }
    }

    /// The other state.
    pub fn flip(self) -> (r: Cell)
        ensures
            r == flipped(self),
    {
        match self {
            Cell::Alive => Cell::Dead,
            Cell::Dead => Cell::Alive,
        }
    }
}

/// The state of a cell in the next generation, from its state and the number
/// of its live neighbours now.
pub fn next_state(cell: Cell, live_neighbors: u8) -> (r: Cell)
    ensures
        r == rule(cell, live_neighbors as nat),
{
    match cell {
        // Fewer than two live neighbours: dies of underpopulation.
        Cell::Alive if live_neighbors < 2 => Cell::Dead,
        // Two or three: lives on.
        Cell::Alive if live_neighbors <= 3 => Cell::Alive,
        // More than three: dies of overpopulation.
        Cell::Alive => Cell::Dead,
        // Exactly three: comes alive by reproduction.
        Cell::Dead if live_neighbors == 3 => Cell::Alive,
        Cell::Dead => Cell::Dead,
    }
}

} // verus!
