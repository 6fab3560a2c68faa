//! Conway's Game of Life on a fixed-size grid whose edges wrap around.
//!
//! [`Universe`] owns the grid. Its contracts are stated over the pure model in
//! [`grid`]: a generation is a `Seq<Cell>` in row-major order, and
//! [`grid::next_generation`] says what the following generation is.

pub mod cell;
pub mod grid;
pub mod random;
pub mod universe;

pub use cell::Cell;
pub use universe::GridError;
pub use universe::Universe;
pub use universe::DEFAULT_HEIGHT;
pub use universe::DEFAULT_WIDTH;
