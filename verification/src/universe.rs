//! The universe: a grid of cells and the operations that read and change it.

use crate::cell::Cell;
use crate::grid::all_dead;
use crate::grid::all_in_bounds;
use crate::grid::cells_of;
use crate::grid::alive_at;
use crate::grid::in_bounds;
use crate::grid::index_of;
use crate::grid::lemma_index_in_range;
use crate::grid::lemma_wrap_in_bounds;
use crate::grid::live_neighbors;
use crate::grid::mark_index;
use crate::grid::marked_among;
use crate::grid::next_generation;
use crate::grid::with_alive;
use crate::random::random_bool;
use crate::random::draw_seeded;
use crate::random::seeded_draws;
use vstd::prelude::*;

verus! {

/// The width of a universe made by [`Universe::new`].
pub const DEFAULT_WIDTH: u32 = 64;

/// The height of a universe made by [`Universe::new`].
pub const DEFAULT_HEIGHT: u32 = 64;

/// Why an operation on a universe was refused.
#[derive(Clone, Copy, Debug, PartialEq, Eq, Structural)]
pub enum GridError {
    /// A row or a column lies outside the grid. On a grid of width or height
    /// zero every position does.
    IndexOutOfBounds,
}

/// A grid of `width` by `height` cells that wraps around at its edges.
///
/// The cells are kept in row-major order: the cell at row `r` and column `c`
/// is at place `r * width + c`. The view of a universe is that sequence, and
/// its length is `width * height` at all times.
pub struct Universe {
    width: u32,
    height: u32,
    cells: Vec<Cell>,
}

impl View for Universe {
    type V = Seq<Cell>;

    closed spec fn view(&self) -> Seq<Cell> {
        self.cells@
    }
}

impl Universe {
    #[verifier::type_invariant]
    spec fn well_formed(self) -> bool {
        self.cells@.len() == self.width * self.height
    }

    /// The number of columns.
    pub closed spec fn spec_width(&self) -> u32 {
        self.width
    }

    /// The number of rows.
    pub closed spec fn spec_height(&self) -> u32 {
        self.height
    }

    /// Whether `(row, col)` is a position of this grid.
    pub open spec fn contains(&self, row: u32, col: u32) -> bool {
        in_bounds(self.width() as int, self.height() as int, row as int, col as int)
    }

    /// The place of `(row, col)` in the view.
    pub open spec fn place(&self, row: u32, col: u32) -> int {
        index_of(self.width() as int, row as int, col as int)
    }

    /// How many of the eight neighbours of `(row, col)` are alive.
    pub open spec fn neighbors(&self, row: u32, col: u32) -> int {
        live_neighbors(self@, self.width() as int, self.height() as int, row as int, col as int)
    }

    /// The generation that follows the current one.
    pub open spec fn successor(&self) -> Seq<Cell> {
        next_generation(self@, self.width() as int, self.height() as int)
    }

    /// The place of `(row, col)` in the buffer, for a position of the grid.
    fn index_at(&self, row: u32, col: u32) -> (idx: usize)
        requires
            self.contains(row, col),
        ensures
            idx == self.place(row, col),
            idx < self@.len(),
    {
        proof {
            use_type_invariant(self);
            lemma_index_in_range(self.width as int, self.height as int, row as int, col as int);
            assert(0 <= row * self.width) by (nonlinear_arith);
            assert(self.cells@.len() == self.cells.len());
        }
        row as usize * self.width as usize + col as usize
    }

    /// The place of `(row, col)` in the buffer, `row * width + col`, or
    /// `IndexOutOfBounds` where the grid has no such position.
    pub fn get_index(&self, row: u32, col: u32) -> (res: Result<usize, GridError>)
        ensures
            self.contains(row, col) ==> res == Ok::<usize, GridError>(
                self.place(row, col) as usize,
            ) && 0 <= self.place(row, col) < self@.len(),
            !self.contains(row, col) ==> res == Err::<usize, GridError>(
                GridError::IndexOutOfBounds,
            ),
    {
        if row < self.height && col < self.width {
            Ok(self.index_at(row, col))
        } else {
            Err(GridError::IndexOutOfBounds)
        }
    }

    /// 1 if the cell at a position of the grid is alive, else 0.
    fn value_at(&self, row: u32, col: u32) -> (value: u8)
        requires
            self.contains(row, col),
        ensures
            value == alive_at(self@, self.width() as int, row as int, col as int),
            value <= 1,
    {
        let idx = self.index_at(row, col);
        self.cells[idx].to_byte()
    }

    /// The number of live cells among the eight around a position of the grid.
    fn count_at(&self, row: u32, col: u32) -> (count: u8)
        requires
            self.contains(row, col),
        ensures
            count == self.neighbors(row, col),
            count <= 8,
    {
        proof {
            lemma_wrap_in_bounds(self.height as int, row as int);
            lemma_wrap_in_bounds(self.width as int, col as int);
        }
        let north = if row == 0 { self.height - 1 } else { row - 1 };
        let south = if row == self.height - 1 { 0 } else { row + 1 };
        let west = if col == 0 { self.width - 1 } else { col - 1 };
        let east = if col == self.width - 1 { 0 } else { col + 1 };
        self.value_at(north, west) + self.value_at(north, col) + self.value_at(north, east)
            + self.value_at(row, west) + self.value_at(row, east) + self.value_at(south, west)
            + self.value_at(south, col) + self.value_at(south, east)
    }

    /// How many of the eight neighbours of `(row, col)` are alive, the grid
    /// wrapping around at its edges, or `IndexOutOfBounds` where the grid has
    /// no such position.
    pub fn live_neighbor_count(&self, row: u32, col: u32) -> (res: Result<u8, GridError>)
        ensures
            self.contains(row, col) ==> res == Ok::<u8, GridError>(self.neighbors(row, col) as u8)
                && 0 <= self.neighbors(row, col) <= 8,
            !self.contains(row, col) ==> res == Err::<u8, GridError>(GridError::IndexOutOfBounds),
    {
        if row < self.height && col < self.width {
            Ok(self.count_at(row, col))
        } else {
            Err(GridError::IndexOutOfBounds)
        }
    }

    /// The cells of the current generation, in row-major order.
    pub fn get_cells(&self) -> (cells: &[Cell])
        ensures
            cells@ == self@,
            cells@.len() == self.width() * self.height(),
    {
        proof {
            use_type_invariant(self);
        }
        self.cells.as_slice()
    }

    /// The number of columns.
    #[verifier::when_used_as_spec(spec_width)]
    pub fn width(&self) -> (width: u32)
        ensures
            width == self.width(),
    {
        self.width
    }

    /// The number of rows.
    #[verifier::when_used_as_spec(spec_height)]
    pub fn height(&self) -> (height: u32)
        ensures
            height == self.height(),
    {
        self.height
    }

    /// Makes a universe of the given size from one draw for each cell, in
    /// row-major order: the cell is alive where the draw is `true`. There is
    /// no universe where the number of draws is not `width * height`.
    pub fn from_draws(width: u32, height: u32, draws: &[bool]) -> (res: Option<Universe>)
        ensures
            draws@.len() == width * height ==> (res matches Some(universe) && universe.width()
                == width && universe.height() == height && universe@ == cells_of(draws@)),
            draws@.len() != width * height ==> res is None,
    {
        assert(width * height <= u64::MAX) by (nonlinear_arith)
            requires
                width <= u32::MAX,
                height <= u32::MAX,
        ;
        if draws.len() as u64 != width as u64 * height as u64 {
            return None;
        }
        let mut cells: Vec<Cell> = Vec::new();
        for i in 0..draws.len()
            invariant
                cells@ == cells_of(draws@.take(i as int)),
        {
            cells.push(Cell::from_bool(draws[i]));
            assert(cells@ == cells_of(draws@.take(i + 1)));
        }
        assert(draws@.take(draws@.len() as int) == draws@);
        Some(Universe { width, height, cells })
    }

    /// Makes a universe of the default size in which each cell is alive or
    /// dead by a random draw of its own. Two calls give different patterns;
    /// only the size is known beforehand.
    pub fn new() -> (universe: Universe)
        ensures
            universe.width() == DEFAULT_WIDTH,
            universe.height() == DEFAULT_HEIGHT,
            universe@.len() == DEFAULT_WIDTH * DEFAULT_HEIGHT,
    {
        let mut rng = rand::thread_rng();
        let mut draws: Vec<bool> = Vec::new();
        for i in 0..DEFAULT_WIDTH * DEFAULT_HEIGHT
            invariant
                draws@.len() == i,
        {
            draws.push(random_bool(&mut rng));
        }
        Universe::from_draws(DEFAULT_WIDTH, DEFAULT_HEIGHT, draws.as_slice()).unwrap()
    }

    /// Makes a universe of the default size from the draws of a generator
    /// that starts from `seed`. The same seed gives the same pattern again;
    /// which pattern a seed gives is the generator's matter.
    pub fn from_seed(seed: u64) -> (universe: Universe)
        ensures
            universe.width() == DEFAULT_WIDTH,
            universe.height() == DEFAULT_HEIGHT,
            universe@ == cells_of(
                seeded_draws(seed, (DEFAULT_WIDTH * DEFAULT_HEIGHT) as usize),
            ),
            universe@.len() == DEFAULT_WIDTH * DEFAULT_HEIGHT,
    {
        let count = DEFAULT_WIDTH as usize * DEFAULT_HEIGHT as usize;
        let draws = draw_seeded(seed, count);
        Universe::from_draws(DEFAULT_WIDTH, DEFAULT_HEIGHT, draws.as_slice()).unwrap()
    }

    /// Makes a buffer of `len` dead cells.
    fn dead_cells(len: usize) -> (cells: Vec<Cell>)
        ensures
            cells@ == all_dead(len as int),
    {
        let mut cells: Vec<Cell> = Vec::new();
        for i in 0..len
            invariant
                cells@ == all_dead(i as int),
        {
            cells.push(Cell::Dead);
            assert(cells@ == all_dead(i + 1));
        }
        cells
    }

    /// Sets the number of columns and makes every cell dead. No cell of the
    /// grid before the call is kept, not even where the width stays the same.
    /// The new grid's number of cells must fit in `usize`.
    pub fn set_width(&mut self, width: u32)
        requires
            width * old(self).height() <= usize::MAX,
        ensures
            final(self).width() == width,
            final(self).height() == old(self).height(),
            final(self)@ == all_dead(width * old(self).height()),
            final(self)@.len() == final(self).width() * final(self).height(),
    {
        let height = self.height;
        assert(width * height == (width as usize) * (height as usize));
        let cells = Self::dead_cells(width as usize * height as usize);
        *self = Universe { width, height, cells };
    }

    /// Sets the number of rows and makes every cell dead. No cell of the grid
    /// before the call is kept, not even where the height stays the same.
    /// The new grid's number of cells must fit in `usize`.
    pub fn set_height(&mut self, height: u32)
        requires
            old(self).width() * height <= usize::MAX,
        ensures
            final(self).width() == old(self).width(),
            final(self).height() == height,
            final(self)@ == all_dead(old(self).width() * height),
            final(self)@.len() == final(self).width() * final(self).height(),
    {
        let width = self.width;
        assert(width * height == (width as usize) * (height as usize));
        let cells = Self::dead_cells(width as usize * height as usize);
        *self = Universe { width, height, cells };
    }

    /// Moves the universe one generation on. Every cell of the new generation
    /// is computed from the generation before the call; the buffer is
    /// replaced as a whole when all of them are known.
    pub fn tick(&mut self)
        ensures
            final(self).width() == old(self).width(),
            final(self).height() == old(self).height(),
            final(self)@ == old(self).successor(),
            final(self)@.len() == final(self).width() * final(self).height(),
    {
        proof {
            use_type_invariant(&*self);
        }
        let width = self.width;
        let height = self.height;
        let ghost now = self@;
        let ghost then = next_generation(now, width as int, height as int);
        let mut next: Vec<Cell> = Vec::new();
        assert(0 * width == 0);
        for row in 0..height
            invariant
                width == self.width,
                height == self.height,
                now == self@,
                now.len() == width * height,
                then == next_generation(now, width as int, height as int),
                next@.len() == row * width,
                next@ == then.take(next@.len() as int),
        {
            for col in 0..width
                invariant
                    row < height,
                    width == self.width,
                    height == self.height,
                    now == self@,
                    now.len() == width * height,
                    then == next_generation(now, width as int, height as int),
                    next@.len() == row * width + col,
                    next@ == then.take(next@.len() as int),
            {
                proof {
                    lemma_index_in_range(width as int, height as int, row as int, col as int);
                }
                let idx = self.index_at(row, col);
                let cell = self.cells[idx];
                let live_neighbors = self.count_at(row, col);
                next.push(cell.next_state(live_neighbors));
                assert(next@ == then.take(next@.len() as int));
            }
            assert(row * width + width == (row + 1) * width) by (nonlinear_arith);
        }
        assert(next@.len() == height * width);
        assert(next@ =~= then);
        self.cells = next;
    }

    /// Makes the cell at each `(row, col)` pair of `cells` alive and leaves
    /// every other cell as it is. Where a pair lies outside the grid, nothing
    /// is changed and `IndexOutOfBounds` is returned.
    pub fn set_cells(&mut self, cells: &[(u32, u32)]) -> (res: Result<(), GridError>)
        ensures
            final(self).width() == old(self).width(),
            final(self).height() == old(self).height(),
            final(self)@.len() == final(self).width() * final(self).height(),
            all_in_bounds(cells@, old(self).width() as int, old(self).height() as int) ==> res
                == Ok::<(), GridError>(()) && final(self)@ == with_alive(
                old(self)@,
                old(self).width() as int,
                cells@,
            ),
            !all_in_bounds(cells@, old(self).width() as int, old(self).height() as int) ==> res
                == Err::<(), GridError>(GridError::IndexOutOfBounds) && final(self)@ == old(self)@,
    {
        proof {
            use_type_invariant(&*self);
        }
        let width = self.width;
        let height = self.height;
        for k in 0..cells.len()
            invariant
                width == self.width,
                height == self.height,
                *self == *old(self),
                self@.len() == width * height,
                forall|j: int|
                    0 <= j < k ==> in_bounds(
                        width as int,
                        height as int,
                        (#[trigger] cells@[j]).0 as int,
                        cells@[j].1 as int,
                    ),
        {
            let (row, col) = cells[k];
            if row >= height || col >= width {
                return Err(GridError::IndexOutOfBounds);
            }
        }
        let ghost before = self@;
        for k in 0..cells.len()
            invariant
                width == self.width,
                height == self.height,
                self.width == old(self).width,
                self.height == old(self).height,
                before == old(self)@,
                self@.len() == before.len(),
                before.len() == width * height,
                all_in_bounds(cells@, width as int, height as int),
                forall|i: int|
                    0 <= i < before.len() ==> #[trigger] self@[i] == (if marked_among(
                        cells@,
                        width as int,
                        k as int,
                        i,
                    ) {
                        Cell::Alive
                    } else {
                        before[i]
                    }),
        {
            let (row, col) = cells[k];
            let idx = self.index_at(row, col);
            self.cells[idx] = Cell::Alive;
            assert(idx == mark_index(cells@, width as int, k as int));
        }
        assert(self@ =~= with_alive(before, width as int, cells@));
        Ok(())
    }

    /// The buffer that a renderer reads: the cells of the current generation
    /// in row-major order, one after the other. The borrow ends before the
    /// next call that changes the universe (`tick`, `set_cells`, `set_width`,
    /// `set_height`); after such a call the buffer is fetched anew.
    pub fn cells_ptr(&self) -> (cells: &[Cell])
        ensures
            cells@ == self@,
            cells@.len() == self.width() * self.height(),
    {
        self.get_cells()
    }
}

} // verus!
