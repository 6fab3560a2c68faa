//! The mathematical model of the grid: a generation is a sequence of cells in
//! row-major order, `width` cells to a row.

use crate::cell::Cell;
use vstd::prelude::*;

verus! {

/// Whether `(row, col)` names a position of a `width` by `height` grid.
pub open spec fn in_bounds(width: int, height: int, row: int, col: int) -> bool {
    0 <= row < height && 0 <= col < width
}

/// The place of `(row, col)` in the row-major sequence.
pub open spec fn index_of(width: int, row: int, col: int) -> int {
    row * width + col
}

/// 1 if the cell at `(row, col)` is alive, else 0.
pub open spec fn alive_at(cells: Seq<Cell>, width: int, row: int, col: int) -> int {
    cells[index_of(width, row, col)].value()
}

/// How many of the eight positions around `(row, col)` hold a live cell.
/// The rows above and below and the columns left and right are taken modulo
/// the grid's size, so the grid wraps around at its edges. On a grid that is
/// one cell high or wide a position is counted as often as it occurs among
/// the eight, the cell at `(row, col)` included.
pub open spec fn live_neighbors(
    cells: Seq<Cell>,
    width: int,
    height: int,
    row: int,
    col: int,
) -> int {
    let north = (row + height - 1) % height;
    let south = (row + 1) % height;
    let west = (col + width - 1) % width;
    let east = (col + 1) % width;
    alive_at(cells, width, north, west) + alive_at(cells, width, north, col)
        + alive_at(cells, width, north, east) + alive_at(cells, width, row, west)
        + alive_at(cells, width, row, east) + alive_at(cells, width, south, west)
        + alive_at(cells, width, south, col) + alive_at(cells, width, south, east)
}

/// The generation that follows `cells`: every cell changes by the transition
/// rule, applied to its state and its neighbours in `cells`.
pub open spec fn next_generation(cells: Seq<Cell>, width: int, height: int) -> Seq<Cell> {
    Seq::new(
        cells.len(),
        |i: int| cells[i].successor(live_neighbors(cells, width, height, i / width, i % width)),
    )
}

/// A generation of `len` dead cells.
pub open spec fn all_dead(len: int) -> Seq<Cell> {
    Seq::new(len as nat, |i: int| Cell::Dead)
}

/// The generation that a sequence of draws stands for: a cell is alive where
/// its draw is `true`.
pub open spec fn cells_of(draws: Seq<bool>) -> Seq<Cell> {
    Seq::new(
        draws.len(),
        |i: int|
            if draws[i] {
                Cell::Alive
            } else {
                Cell::Dead
            },
    )
}

/// The place in the sequence that the `k`-th pair of `marks` names.
pub open spec fn mark_index(marks: Seq<(u32, u32)>, width: int, k: int) -> int {
    index_of(width, marks[k].0 as int, marks[k].1 as int)
}

/// Whether every pair of `marks` names a position of the grid.
pub open spec fn all_in_bounds(marks: Seq<(u32, u32)>, width: int, height: int) -> bool {
    forall|k: int|
        0 <= k < marks.len() ==> in_bounds(
            width,
            height,
            (#[trigger] marks[k]).0 as int,
            marks[k].1 as int,
        )
}

/// Whether one of the first `count` pairs of `marks` names place `i`.
pub open spec fn marked_among(marks: Seq<(u32, u32)>, width: int, count: int, i: int) -> bool {
    exists|k: int| 0 <= k < count && #[trigger] mark_index(marks, width, k) == i
}

/// `cells` with every position that `marks` names set to alive, and every
/// other cell as it was.
pub open spec fn with_alive(cells: Seq<Cell>, width: int, marks: Seq<(u32, u32)>) -> Seq<Cell> {
    Seq::new(
        cells.len(),
        |i: int|
            if marked_among(marks, width, marks.len() as int, i) {
                Cell::Alive
            } else {
                cells[i]
            },
    )
}

/// A position of the grid has a place in the sequence, below the number of
/// cells, and the place gives the row and the column back: no two positions
/// share a place.
pub proof fn lemma_index_in_range(width: int, height: int, row: int, col: int)
    requires
        in_bounds(width, height, row, col),
    ensures
        0 <= index_of(width, row, col) < width * height,
        index_of(width, row, col) / width == row,
        index_of(width, row, col) % width == col,
{
    assert(0 <= row * width && row * width + width <= height * width) by (nonlinear_arith)
        requires
            0 <= row < height,
            0 < width,
    ;
    assert(width * height == height * width) by (nonlinear_arith);
    vstd::arithmetic::div_mod::lemma_fundamental_div_mod_converse(
        index_of(width, row, col),
        width,
        row,
        col,
    );
}

/// Stepping one back or one on from a row or a column, modulo the grid's
/// size, stays on the grid: from the first one back leads to the last, from
/// the last one on leads to the first.
pub proof fn lemma_wrap_in_bounds(size: int, at: int)
    requires
        0 <= at < size,
    ensures
        0 <= (at + size - 1) % size < size,
        0 <= (at + 1) % size < size,
        (at + size - 1) % size == (if at == 0 { size - 1 } else { at - 1 }),
        (at + 1) % size == (if at == size - 1 { 0 } else { at + 1 }),
{
    if at == 0 {
        vstd::arithmetic::div_mod::lemma_small_mod((size - 1) as nat, size as nat);
    } else {
        vstd::arithmetic::div_mod::lemma_fundamental_div_mod_converse(at + size - 1, size, 1, at - 1);
    }
    if at == size - 1 {
        vstd::arithmetic::div_mod::lemma_fundamental_div_mod_converse(at + 1, size, 1, 0);
    } else {
        vstd::arithmetic::div_mod::lemma_small_mod((at + 1) as nat, size as nat);
    }
}

/// In the following generation the cell at a position of the grid is the
/// successor of the cell there now, by the count of its live neighbours now.
pub proof fn lemma_next_generation_at(
    cells: Seq<Cell>,
    width: int,
    height: int,
    row: int,
    col: int,
)
    requires
        cells.len() == width * height,
        in_bounds(width, height, row, col),
    ensures
        next_generation(cells, width, height).len() == cells.len(),
        next_generation(cells, width, height)[index_of(width, row, col)] == cells[index_of(
            width,
            row,
            col,
        )].successor(live_neighbors(cells, width, height, row, col)),
{
    lemma_index_in_range(width, height, row, col);
}

/// A grid of width or height zero has no cells, and the generation that
/// follows it has none either.
pub proof fn lemma_empty_grid(cells: Seq<Cell>, width: int, height: int)
    requires
        cells.len() == width * height,
        width == 0 || height == 0,
    ensures
        cells.len() == 0,
        next_generation(cells, width, height) == cells,
{
    assert(width * height == 0) by (nonlinear_arith)
        requires
            width == 0 || height == 0,
    ;
    assert(next_generation(cells, width, height) =~= cells);
}

} // verus!
