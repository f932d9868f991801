//! What holds of every board and every shape.

use vstd::prelude::*;
use vstd::arithmetic::div_mod::{lemma_mod_add_multiples_vanish, lemma_mod_self_0, lemma_small_mod};
use crate::cell::Cell;
use crate::grid::{listed, Grid};
use crate::position::Position;
use crate::shape::materialized;

verus! {

/// On a ring of `n` squares, stepping back from the first square leads to the
/// last, stepping forward from the last leads to the first, and every other
/// step stays inside.
pub proof fn lemma_ring_steps(i: int, n: int)
    requires
        0 <= i < n,
    ensures
        i % n == i,
        (i - 1) % n == (if i == 0 {
            n - 1
        } else {
            i - 1
        }),
        (i + 1) % n == (if i == n - 1 {
            0
        } else {
            i + 1
        }),
{
    lemma_small_mod(i as nat, n as nat);
    if i == 0 {
        lemma_mod_add_multiples_vanish(-1, n);
        lemma_small_mod((n - 1) as nat, n as nat);
    } else {
        lemma_small_mod((i - 1) as nat, n as nat);
    }
    if i == n - 1 {
        lemma_mod_self_0(n);
    } else {
        lemma_small_mod((i + 1) as nat, n as nat);
    }
}

/// One generation keeps the board's size and shape.
pub proof fn lemma_next_generation_wf(grid: Grid)
    requires
        grid.wf(),
    ensures
        grid.next_generation().wf(),
        grid.next_generation().width == grid.width,
        grid.next_generation().height == grid.height,
{
}

/// The next generation depends on nothing but the squares: two boards of one
/// size that agree square by square have the same next generation.
pub proof fn lemma_next_generation_deterministic(a: Grid, b: Grid)
    requires
        a.wf(),
        b.wf(),
        a.width == b.width,
        a.height == b.height,
        forall|r: int, c: int| a.contains(r, c) ==> a.rows[r][c] == b.rows[r][c],
    ensures
        a.next_generation() == b.next_generation(),
{
    assert forall|r: int| 0 <= r < a.height implies #[trigger] a.rows[r] =~= b.rows[r] by {
        assert forall|c: int| 0 <= c < a.width implies a.rows[r][c] == b.rows[r][c] by {
            assert(a.contains(r, c));
        }
    }
    assert(a =~~= b);
}

/// The fate of each square in one generation. A live square with fewer than
/// two live neighbours dies, and so does one with more than three; a live
/// square with two or three lives on. A dead square with exactly three live
/// neighbours is born; with any other number it stays dead.
pub proof fn lemma_fate_of_each_square(grid: Grid, row: int, column: int)
    requires
        grid.wf(),
        grid.contains(row, column),
    ensures
        ({
            let now = grid.rows[row][column];
            let neighbors = grid.live_neighbors(row, column);
            let next = grid.next_generation().rows[row][column];
            &&& now == Cell::Alive && neighbors <= 1 ==> next == Cell::Dead
            &&& now == Cell::Alive && (neighbors == 2 || neighbors == 3) ==> next == Cell::Alive
            &&& now == Cell::Alive && neighbors > 3 ==> next == Cell::Dead
            &&& now == Cell::Dead && neighbors == 3 ==> next == Cell::Alive
            &&& now == Cell::Dead && neighbors != 3 ==> next == Cell::Dead
        }),
{
}

/// A live square in the top left corner is counted by all eight squares that
/// touch it on the torus: the three in the bottom row, the two beside it in
/// the top row across the side edge, and the three in the row below.
pub proof fn lemma_corner_is_counted_across_edges(grid: Grid)
    requires
        grid.wf(),
        grid.rows[0][0] == Cell::Alive,
    ensures
        grid.live_neighbors(grid.height - 1, grid.width - 1) >= 1,
        grid.live_neighbors(grid.height - 1, 0) >= 1,
        grid.live_neighbors(grid.height - 1, 1) >= 1,
        grid.live_neighbors(0, grid.width - 1) >= 1,
        grid.live_neighbors(0, 1) >= 1,
        grid.live_neighbors(1, grid.width - 1) >= 1,
        grid.live_neighbors(1, 0) >= 1,
        grid.live_neighbors(1, 1) >= 1,
{
    let h = grid.height as int;
    let w = grid.width as int;
    lemma_mod_self_0(h);
    lemma_mod_self_0(w);
    lemma_small_mod(0, h as nat);
    lemma_small_mod(0, w as nat);
    assert(grid.alive(0, 0));
    assert(grid.alive(h, 0));
    assert(grid.alive(0, w));
    assert(grid.alive(h, w));
}

/// Whether `(row, column)` touches the top left corner on the torus: it lies
/// in the first, second or last row and in the first, second or last column,
/// and is not the corner itself.
pub open spec fn touches_corner(grid: Grid, row: int, column: int) -> bool {
    &&& row == 0 || row == 1 || row == grid.height - 1
    &&& column == 0 || column == 1 || column == grid.width - 1
    &&& !(row == 0 && column == 0)
}

/// On a board at least three squares wide and high whose only live square is
/// the top left corner, the eight squares that touch the corner count one
/// live neighbour each, across the edges as well as inside, and every other
/// square counts none.
pub proof fn lemma_lone_corner_is_counted_once(grid: Grid, row: int, column: int)
    requires
        grid.wf(),
        grid.width >= 3,
        grid.height >= 3,
        grid.contains(row, column),
        forall|r: int, c: int| grid.contains(r, c) ==> (#[trigger] grid.rows[r][c] == Cell::Alive <==> r == 0 && c == 0),
    ensures
        grid.live_neighbors(row, column) == (if touches_corner(grid, row, column) {
            1nat
        } else {
            0nat
        }),
{
    let h = grid.height as int;
    let w = grid.width as int;
    lemma_ring_steps(row, h);
    lemma_ring_steps(column, w);
    let up = (row - 1) % h;
    let down = (row + 1) % h;
    let west = (column - 1) % w;
    let east = (column + 1) % w;
    assert(grid.alive(row - 1, column - 1) == (grid.rows[up][west] == Cell::Alive));
    assert(grid.alive(row - 1, column) == (grid.rows[up][column] == Cell::Alive));
    assert(grid.alive(row - 1, column + 1) == (grid.rows[up][east] == Cell::Alive));
    assert(grid.alive(row, column - 1) == (grid.rows[row][west] == Cell::Alive));
    assert(grid.alive(row, column + 1) == (grid.rows[row][east] == Cell::Alive));
    assert(grid.alive(row + 1, column - 1) == (grid.rows[down][west] == Cell::Alive));
    assert(grid.alive(row + 1, column) == (grid.rows[down][column] == Cell::Alive));
    assert(grid.alive(row + 1, column + 1) == (grid.rows[down][east] == Cell::Alive));
}

/// Whether exactly the four squares of the two-by-two block whose top left
/// corner is `(top, left)` are alive; the block may reach across an edge.
pub open spec fn is_block(grid: Grid, top: int, left: int) -> bool {
    forall|r: int, c: int|
        grid.contains(r, c) ==> (#[trigger] grid.rows[r][c] == Cell::Alive <==> (r == top || r == (top + 1) % (
        grid.height as int)) && (c == left || c == (left + 1) % (grid.width as int)))
}

/// A lone two-by-two block is a still life: on a board at least three squares
/// wide and high it is unchanged by one generation.
pub proof fn lemma_block_survives_a_generation(grid: Grid, top: int, left: int)
    requires
        grid.wf(),
        grid.width >= 3,
        grid.height >= 3,
        grid.contains(top, left),
        is_block(grid, top, left),
    ensures
        grid.next_generation() == grid,
{
    let h = grid.height as int;
    let w = grid.width as int;
    lemma_ring_steps(top, h);
    lemma_ring_steps(left, w);
    let bottom = (top + 1) % h;
    let right = (left + 1) % w;
    assert forall|r: int, c: int| grid.contains(r, c) implies grid.rows[r][c].next_state(grid.live_neighbors(r, c))
        == grid.rows[r][c] by {
        lemma_ring_steps(r, h);
        lemma_ring_steps(c, w);
        let up = (r - 1) % h;
        let down = (r + 1) % h;
        let west = (c - 1) % w;
        let east = (c + 1) % w;
        lemma_ring_steps(up, h);
        lemma_ring_steps(down, h);
        lemma_ring_steps(west, w);
        lemma_ring_steps(east, w);
        assert(grid.alive(r - 1, c - 1) == (grid.rows[up][west] == Cell::Alive));
        assert(grid.alive(r - 1, c) == (grid.rows[up][c] == Cell::Alive));
        assert(grid.alive(r - 1, c + 1) == (grid.rows[up][east] == Cell::Alive));
        assert(grid.alive(r, c - 1) == (grid.rows[r][west] == Cell::Alive));
        assert(grid.alive(r, c + 1) == (grid.rows[r][east] == Cell::Alive));
        assert(grid.alive(r + 1, c - 1) == (grid.rows[down][west] == Cell::Alive));
        assert(grid.alive(r + 1, c) == (grid.rows[down][c] == Cell::Alive));
        assert(grid.alive(r + 1, c + 1) == (grid.rows[down][east] == Cell::Alive));
    }
    assert forall|r: int| 0 <= r < h implies #[trigger] grid.next_generation().rows[r] =~= grid.rows[r] by {
        assert forall|c: int| 0 <= c < w implies grid.next_generation().rows[r][c] == grid.rows[r][c] by {
            assert(grid.contains(r, c));
        }
    }
    assert(grid.next_generation() =~~= grid);
}

/// A lone two-by-two block is unchanged by any number of generations.
pub proof fn lemma_block_is_still(grid: Grid, top: int, left: int, generations: nat)
    requires
        grid.wf(),
        grid.width >= 3,
        grid.height >= 3,
        grid.contains(top, left),
        is_block(grid, top, left),
    ensures
        grid.after(generations) == grid,
    decreases generations,
{
    if generations > 0 {
        lemma_block_is_still(grid, top, left, (generations - 1) as nat);
        lemma_block_survives_a_generation(grid, top, left);
    }
}

/// Materializing is a function of the pattern, the offset and the board's
/// size alone: the same shape on the same board gives the same squares in the
/// same order, however often it is asked.
pub proof fn lemma_materialized_is_repeatable(
    pattern: Seq<Position>,
    offset: Option<Position>,
    again: Seq<Position>,
    offset_again: Option<Position>,
    width: int,
    height: int,
)
    requires
        pattern == again,
        offset == offset_again,
    ensures
        materialized(pattern, offset, width, height) == materialized(again, offset_again, width, height),
{
}

/// Every materialized square of a shape with an offset lies on the board.
pub proof fn lemma_materialized_on_board(pattern: Seq<Position>, offset: Position, width: int, height: int, i: int)
    requires
        0 < width <= u16::MAX,
        0 < height <= u16::MAX,
        0 <= i < pattern.len(),
    ensures
        materialized(pattern, Some(offset), width, height).len() == pattern.len(),
        materialized(pattern, Some(offset), width, height)[i].row < height,
        materialized(pattern, Some(offset), width, height)[i].column < width,
{
}

/// Stamping only adds life: a square that was alive stays alive, a listed
/// square is alive afterwards, and a square that is not listed keeps its
/// state.
pub proof fn lemma_stamp_never_clears(grid: Grid, squares: Seq<Position>, row: int, column: int)
    requires
        grid.wf(),
        grid.contains(row, column),
    ensures
        grid.stamped(squares).wf(),
        grid.rows[row][column] == Cell::Alive ==> grid.stamped(squares).rows[row][column] == Cell::Alive,
        listed(squares, row, column) ==> grid.stamped(squares).rows[row][column] == Cell::Alive,
        !listed(squares, row, column) ==> grid.stamped(squares).rows[row][column] == grid.rows[row][column],
{
}

/// Flipping a square twice restores the board.
pub proof fn lemma_flip_twice(grid: Grid, row: int, column: int)
    requires
        grid.wf(),
        grid.contains(row, column),
    ensures
        ({
            let once = grid.with_cell(row, column, grid.rows[row][column].flipped());
            once.with_cell(row, column, once.rows[row][column].flipped()) == grid
        }),
{
    let once = grid.with_cell(row, column, grid.rows[row][column].flipped());
    assert(once.with_cell(row, column, once.rows[row][column].flipped()) =~~= grid);
}

/// A board without life stays without life.
pub proof fn lemma_empty_stays_empty(width: nat, height: nat, generations: nat)
    requires
        width > 0,
        height > 0,
    ensures
        Grid::filled(width, height, Cell::Dead).after(generations) == Grid::filled(width, height, Cell::Dead),
    decreases generations,
{
    let empty = Grid::filled(width, height, Cell::Dead);
    if generations > 0 {
        lemma_empty_stays_empty(width, height, (generations - 1) as nat);
        assert forall|r: int, c: int| empty.contains(r, c) implies empty.live_neighbors(r, c) == 0 by {
            lemma_dead_everywhere(empty, r - 1, c - 1);
            lemma_dead_everywhere(empty, r - 1, c);
            lemma_dead_everywhere(empty, r - 1, c + 1);
            lemma_dead_everywhere(empty, r, c - 1);
            lemma_dead_everywhere(empty, r, c + 1);
            lemma_dead_everywhere(empty, r + 1, c - 1);
            lemma_dead_everywhere(empty, r + 1, c);
            lemma_dead_everywhere(empty, r + 1, c + 1);
        }
        assert(empty.next_generation() =~~= empty);
    }
}

/// On a board whose squares are all dead, wrapping leads to a dead square.
proof fn lemma_dead_everywhere(grid: Grid, row: int, column: int)
    requires
        grid.wf(),
        forall|r: int, c: int| grid.contains(r, c) ==> grid.rows[r][c] == Cell::Dead,
    ensures
        !grid.alive(row, column),
        grid.live(row, column) == 0,
{
    vstd::arithmetic::div_mod::lemma_mod_bound(row, grid.height as int);
    vstd::arithmetic::div_mod::lemma_mod_bound(column, grid.width as int);
    assert(grid.contains(row % (grid.height as int), column % (grid.width as int)));
}

} // verus!
