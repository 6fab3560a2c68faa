//! The state of a single grid position and the rule by which it changes.

use vstd::prelude::*;

verus! {

/// The state of one position of the grid.
#[derive(Clone, Copy, Debug, PartialEq, Eq, Structural)]
pub enum Cell {
    Dead,
    Alive,
}

impl Cell {
    /// What the cell adds to a count of live cells: 0 when dead, 1 when alive.
    /// This is also the byte by which a renderer reads the cell.
    pub open spec fn value(self) -> int {
        match self {
            Cell::Dead => 0,
            Cell::Alive => 1,
        }
    }

    /// The state of this cell in the following generation, given how many of
    /// its eight neighbours are alive now.
    pub open spec fn successor(self, live_neighbors: int) -> Cell {
        if live_neighbors == 3 || (self == Cell::Alive && live_neighbors == 2) {
            Cell::Alive
        } else {
            Cell::Dead
        }
    }

    /// The byte that stands for the cell.
    pub fn to_byte(self) -> (byte: u8)
        ensures
            byte == self.value(),
    {
        match self {
            Cell::Dead => 0,
            Cell::Alive => 1,
        }
    }

    /// `Alive` for `true`, `Dead` for `false`.
    pub fn from_bool(alive: bool) -> (cell: Cell)
        ensures
            cell == (if alive { Cell::Alive } else { Cell::Dead }),
    {
        if alive {
            Cell::Alive
        } else {
            Cell::Dead
        }
    }

    /// Applies the transition rule to one cell.
    pub fn next_state(self, live_neighbors: u8) -> (next: Cell)
        ensures
            next == self.successor(live_neighbors as int),
    {
        match self {
            Cell::Alive => {
                if live_neighbors < 2 {
                    // underpopulation
                    Cell::Dead
                } else if live_neighbors <= 3 {
                    Cell::Alive
                } else {
                    // overpopulation
                    Cell::Dead
                }
            },
            Cell::Dead => {
                if live_neighbors == 3 {
                    // reproduction
                    Cell::Alive
                } else {
                    Cell::Dead
                }
            },
        }
    }
}

/// The transition rule, row by row: a live cell with fewer than two live
/// neighbours dies, one with two or three stays alive, one with more than
/// three dies; a dead cell with exactly three live neighbours comes alive;
/// in every other case the cell keeps its state. The rows cover every pair
/// of a state and a count.
pub proof fn lemma_transition_table(cell: Cell, live_neighbors: int)
    ensures
        cell == Cell::Alive && live_neighbors < 2 ==> cell.successor(live_neighbors) == Cell::Dead,
        cell == Cell::Alive && (live_neighbors == 2 || live_neighbors == 3) ==> cell.successor(
            live_neighbors,
        ) == Cell::Alive,
        cell == Cell::Alive && live_neighbors > 3 ==> cell.successor(live_neighbors) == Cell::Dead,
        cell == Cell::Dead && live_neighbors == 3 ==> cell.successor(live_neighbors) == Cell::Alive,
        cell == Cell::Dead && live_neighbors != 3 ==> cell.successor(live_neighbors) == cell,
{
}

} // verus!
