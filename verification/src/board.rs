//! The board: a torus of squares that can be seeded, edited and advanced one
//! generation at a time.

use vstd::prelude::*;
use vstd::arithmetic::div_mod::{lemma_add_mod_noop, lemma_add_mod_noop_right, lemma_small_mod};
use crate::cell::Cell;
use crate::grid::{listed, Grid};
use crate::position::Position;
use crate::screen::Rect;
use crate::shape::{materialized, Shape};

verus! {

/// Why a board could not be made.
#[derive(Clone, Copy, Debug, PartialEq, Eq, Structural)]
pub enum BoardError {
    /// The width or the height asked for is zero.
    ZeroDimension,
    /// A seed lies outside the board.
    SeedOffBoard,
}

/// A toroidal board of fixed, positive width and height.
#[derive(Debug)]
pub struct Board {
    width: u16,
    height: u16,
    cells: Vec<Vec<Cell>>,
}

impl View for Board {
    type V = Grid;

    closed spec fn view(&self) -> Grid {
        Grid {
            width: self.width as nat,
            height: self.height as nat,
            rows: self.cells@.map_values(|row: Vec<Cell>| row@),
        }
    }
}

/// The squares that an optional pattern marks on a board of the given size
/// once it is placed by an optional offset.
pub open spec fn pattern_seeds(
    init: Option<Vec<(usize, usize)>>,
    offset: Option<Position>,
    width: int,
    height: int,
) -> Seq<Position> {
    match init {
        Some(cells) => materialized(
            cells@.map_values(|pair: (usize, usize)| Position::of_pair(pair)),
            offset,
            width,
            height,
        ),
        None => Seq::empty(),
    }
}

/// The squares that an optional list of seeds names.
pub open spec fn seeds_of(initial_life: Option<Vec<Position>>) -> Seq<Position> {
    match initial_life {
        Some(seeds) => seeds@,
        None => Seq::empty(),
    }
}

/// Whether every listed square lies on a board of the given size.
pub open spec fn all_on_board(squares: Seq<Position>, width: int, height: int) -> bool {
    forall|i: int| 0 <= i < squares.len() ==> (#[trigger] squares[i]).row < height && squares[i].column < width
}

/// The screen column of the board's left edge when a board `width` squares
/// wide is centred in a terminal `term_width` columns wide. Every square
/// takes two columns.
pub open spec fn screen_left(width: nat, term_width: int) -> int {
    (term_width - 2 * width) / 2
}

/// Whether the character cell in screen row `row` and screen column `column`
/// shows part of the board. It never does when the terminal is too narrow
/// for the whole board.
pub open spec fn on_screen(grid: Grid, row: int, column: int, term_width: int) -> bool {
    &&& 2 * grid.width <= term_width
    &&& Board::GAME_BOARD_TOP <= row < Board::GAME_BOARD_TOP + grid.height
    &&& screen_left(grid.width, term_width) <= column < screen_left(grid.width, term_width) + 2 * grid.width
}

/// The square shown at a character cell that is `on_screen`.
pub open spec fn square_on_screen(grid: Grid, row: int, column: int, term_width: int) -> Position {
    Position {
        row: (row - Board::GAME_BOARD_TOP) as usize,
        column: ((column - screen_left(grid.width, term_width)) / 2) as usize,
    }
}

/// `height` rows of `width` squares, all in state `cell`.
fn uniform_rows(width: u16, height: u16, cell: Cell) -> (rows: Vec<Vec<Cell>>)
    ensures
        rows.len() == height,
        forall|r: int| 0 <= r < height ==> (#[trigger] rows[r]).len() == width,
        forall|r: int, c: int| 0 <= r < height && 0 <= c < width ==> (#[trigger] rows[r][c]) == cell,
{
    let mut rows: Vec<Vec<Cell>> = Vec::new();
    let mut r: u16 = 0;
    while r < height
        invariant
            r <= height,
            rows.len() == r,
            forall|i: int| 0 <= i < r ==> (#[trigger] rows[i]).len() == width,
            forall|i: int, j: int| 0 <= i < r && 0 <= j < width ==> (#[trigger] rows[i][j]) == cell,
        decreases height - r,
    {
        let mut row: Vec<Cell> = Vec::new();
        let mut c: u16 = 0;
        while c < width
            invariant
                c <= width,
                row.len() == c,
                forall|j: int| 0 <= j < c ==> (#[trigger] row[j]) == cell,
            decreases width - c,
        {
            row.push(cell);
            c += 1;
        }
        rows.push(row);
        r += 1;
    }
    rows
}

/// Moving `shift` squares from `x` and wrapping gives the same square
/// whether or not `x` was wrapped first.
proof fn lemma_wrap_then_shift(x: int, shift: int, n: int)
    requires
        0 < n,
    ensures
        ((x % n) + shift) % n == (x + shift) % n,
{
    lemma_add_mod_noop(x, shift, n);
    lemma_add_mod_noop_right(x % n, shift, n);
}

/// The index before `i` on a ring of `n` squares.
fn ring_before(i: usize, n: usize) -> (before: usize)
    requires
        0 < n <= u16::MAX,
        i < n,
    ensures
        before < n,
        before == (i - 1) % (n as int),
{
    proof {
        lemma_add_mod_noop_right(i - 1, n as int, n as int);
    }
    (i + n - 1) % n
}

/// The index after `i` on a ring of `n` squares.
fn ring_after(i: usize, n: usize) -> (after: usize)
    requires
        0 < n <= u16::MAX,
        i < n,
    ensures
        after < n,
        after == (i + 1) % (n as int),
{
    (i + 1) % n
}

/// Puts `cell` in row `row`, column `column` of `rows`.
fn set_cell(rows: &mut Vec<Vec<Cell>>, row: usize, column: usize, cell: Cell)
    requires
        row < old(rows).len(),
        column < old(rows)[row as int].len(),
    ensures
        final(rows)@ == old(rows)@.update(row as int, final(rows)[row as int]),
        final(rows)[row as int]@ == old(rows)[row as int]@.update(column as int, cell),
        forall|r: int| 0 <= r < old(rows).len() ==> (#[trigger] final(rows)[r]).len() == old(rows)[r].len(),
    no_unwind
{
    rows[row][column] = cell;
}

/// Puts every listed square of `rows` in state `cell` and leaves the others
/// as they are.
fn paint_rows(rows: &mut Vec<Vec<Cell>>, squares: &Vec<Position>, cell: Cell, width: u16, height: u16)
    requires
        old(rows).len() == height,
        forall|r: int| 0 <= r < height ==> (#[trigger] old(rows)[r]).len() == width,
        all_on_board(squares@, width as int, height as int),
    ensures
        final(rows).len() == height,
        forall|r: int| 0 <= r < height ==> (#[trigger] final(rows)[r]).len() == width,
        forall|r: int, c: int| 0 <= r < height && 0 <= c < width ==> (#[trigger] final(rows)[r][c]) == (if listed(squares@, r, c) {
            cell
        } else {
            old(rows)[r][c]
        }),
    no_unwind
{
    let mut i: usize = 0;
    while i < squares.len()
        invariant
            i <= squares.len(),
            rows.len() == height,
            forall|r: int| 0 <= r < height ==> (#[trigger] rows[r]).len() == width,
            all_on_board(squares@, width as int, height as int),
            forall|r: int, c: int| 0 <= r < height && 0 <= c < width ==> (#[trigger] rows[r][c]) == (if listed(squares@.take(i as int), r, c) {
                cell
            } else {
                old(rows)[r][c]
            }),
        decreases squares.len() - i,
    {
        let square = squares[i];
        set_cell(rows, square.row, square.column, cell);
        proof {
            let earlier = squares@.take(i as int);
            let now = squares@.take(i + 1);
            assert(now[i as int] == square);
            assert forall|r: int, c: int| 0 <= r < height && 0 <= c < width implies (#[trigger] rows[r][c]) == (if listed(now, r, c) {
                cell
            } else {
                old(rows)[r][c]
            }) by {
                if listed(earlier, r, c) {
                    let j = choose|j: int| 0 <= j < earlier.len() && (#[trigger] earlier[j]).row == r && earlier[j].column == c;
                    assert(now[j] == earlier[j]);
                }
                if listed(now, r, c) && !(r == square.row && c == square.column) {
                    let j = choose|j: int| 0 <= j < now.len() && (#[trigger] now[j]).row == r && now[j].column == c;
                    assert(earlier[j] == now[j]);
                }
            }
        }
        i += 1;
    }
    assert(squares@.take(i as int) == squares@);
}

impl Board {
    /// The screen row on which the top row of the board is drawn.
    pub const GAME_BOARD_TOP: u16 = 5;

    #[verifier::type_invariant]
    spec fn well_formed(self) -> bool {
        &&& self.width > 0
        &&& self.height > 0
        &&& self.cells.len() == self.height
        &&& forall|r: int| 0 <= r < self.cells.len() ==> (#[trigger] self.cells[r]).len() == self.width
    }

    /// A well-formed board holds a well-formed grid.
    proof fn lemma_view_wf(self)
        requires
            self.well_formed(),
        ensures
            self@.wf(),
    {
        assert forall|r: int| 0 <= r < self@.height implies (#[trigger] self@.rows[r]).len() == self@.width by {
            assert(self.cells[r].len() == self.width);
        }
    }

    /// A board of the given size on which exactly the seeds are alive.
    ///
    /// A width or height of zero is refused, and so is a seed that lies
    /// outside the board: seeds are taken as they are, never wrapped.
    pub fn new(width: u16, height: u16, initial_life: Option<Vec<Position>>) -> (made: Result<Board, BoardError>)
        ensures
            match made {
                Ok(board) => {
                    &&& width > 0 && height > 0
                    &&& all_on_board(seeds_of(initial_life), width as int, height as int)
                    &&& board@ == Grid::seeded(width as nat, height as nat, seeds_of(initial_life))
                    &&& board@.wf()
                },
                Err(BoardError::ZeroDimension) => width == 0 || height == 0,
                Err(BoardError::SeedOffBoard) => {
                    &&& width > 0 && height > 0
                    &&& !all_on_board(seeds_of(initial_life), width as int, height as int)
                },
            },
    {
        if width == 0 || height == 0 {
            return Err(BoardError::ZeroDimension);
        }
        let mut cells = uniform_rows(width, height, Cell::Dead);
        if let Some(seeds) = initial_life {
            let mut i: usize = 0;
            while i < seeds.len()
                invariant
                    i <= seeds.len(),
                    width > 0 && height > 0,
                    initial_life == Some(seeds),
                    all_on_board(seeds@.take(i as int), width as int, height as int),
                decreases seeds.len() - i,
            {
                let seed = seeds[i];
                if seed.row >= height as usize || seed.column >= width as usize {
                    assert(seeds_of(initial_life)[i as int] == seed);
                    return Err(BoardError::SeedOffBoard);
                }
                assert forall|j: int| 0 <= j < i + 1 implies (#[trigger] seeds@.take(i + 1)[j]).row < height
                    && seeds@.take(i + 1)[j].column < width by {
                    if j < i {
                        assert(seeds@.take(i as int)[j] == seeds@.take(i + 1)[j]);
                    }
                }
                i += 1;
            }
            assert(seeds@.take(i as int) == seeds@);
            paint_rows(&mut cells, &seeds, Cell::Alive, width, height);
        }
        let board = Board { width, height, cells };
        assert(board@ =~~= Grid::seeded(width as nat, height as nat, seeds_of(initial_life)));
        Ok(board)
    }

    /// A board of the given size seeded with a pattern. With an offset the
    /// pattern is moved by it and wrapped around the edges; without one its
    /// squares are taken as they stand and must lie on the board.
    pub fn seeded(width: u16, height: u16, init: Option<Vec<(usize, usize)>>, offset: Option<Position>) -> (made: Result<
        Board,
        BoardError,
    >)
        ensures
            match made {
                Ok(board) => {
                    &&& width > 0 && height > 0
                    &&& all_on_board(pattern_seeds(init, offset, width as int, height as int), width as int, height as int)
                    &&& board@ == Grid::seeded(
                        width as nat,
                        height as nat,
                        pattern_seeds(init, offset, width as int, height as int),
                    )
                    &&& board@.wf()
                },
                Err(BoardError::ZeroDimension) => width == 0 || height == 0,
                Err(BoardError::SeedOffBoard) => {
                    &&& width > 0 && height > 0
                    &&& !all_on_board(pattern_seeds(init, offset, width as int, height as int), width as int, height as int)
                },
            },
    {
        if width == 0 || height == 0 {
            return Err(BoardError::ZeroDimension);
        }
        let initial_life = match init {
            Some(shape) => Some(Shape::new(shape, offset).get_cells(width, height)),
            None => None,
        };
        Board::new(width, height, initial_life)
    }

    /// The offset that puts a pattern two squares above and to the left of
    /// the square that `scaled_row` and `scaled_column` wrap to, or nothing
    /// where the board has no squares or that place lies beyond its top or
    /// left edge.
    pub fn seed_offset(scaled_row: u16, scaled_column: u16, width: u16, height: u16) -> (offset: Option<Position>)
        ensures
            offset == (if width > 0 && height > 0 && scaled_row % height >= 2 && scaled_column % width >= 2 {
                Some(Position { row: (scaled_row % height - 2) as usize, column: (scaled_column % width - 2) as usize })
            } else {
                None
            }),
    {
        if width == 0 || height == 0 || scaled_row % height < 2 || scaled_column % width < 2 {
            return None;
        }
        Some(Position { row: (scaled_row % height - 2) as usize, column: (scaled_column % width - 2) as usize })
    }

    /// A board of the given size with every square in state `cell`.
    pub fn uniform(width: u16, height: u16, cell: Cell) -> (made: Result<Board, BoardError>)
        ensures
            match made {
                Ok(board) => width > 0 && height > 0 && board@ == Grid::filled(width as nat, height as nat, cell) && board@.wf(),
                Err(error) => error == BoardError::ZeroDimension && (width == 0 || height == 0),
            },
    {
        if width == 0 || height == 0 {
            return Err(BoardError::ZeroDimension);
        }
        let board = Board { width, height, cells: uniform_rows(width, height, cell) };
        assert(board@ =~~= Grid::filled(width as nat, height as nat, cell));
        Ok(board)
    }

    /// A copy of the board.
    pub fn duplicate(&self) -> (copy: Board)
        ensures
            copy@ == self@,
            self@.wf(),
    {
        proof {
            use_type_invariant(self);
            self.lemma_view_wf();
        }
        let mut cells: Vec<Vec<Cell>> = Vec::new();
        let mut row: usize = 0;
        while row < self.cells.len()
            invariant
                row <= self.cells.len(),
                cells.len() == row,
                forall|r: int| 0 <= r < row ==> (#[trigger] cells[r])@ == self.cells[r]@,
            decreases self.cells.len() - row,
        {
            let mut copied: Vec<Cell> = Vec::new();
            let mut column: usize = 0;
            while column < self.cells[row].len()
                invariant
                    row < self.cells.len(),
                    column <= self.cells[row as int].len(),
                    copied.len() == column,
                    forall|c: int| 0 <= c < column ==> (#[trigger] copied[c]) == self.cells[row as int][c],
                decreases self.cells[row as int].len() - column,
            {
                copied.push(self.cells[row][column]);
                column += 1;
            }
            assert(copied@ =~= self.cells[row as int]@);
            cells.push(copied);
            row += 1;
        }
        let copy = Board { width: self.width, height: self.height, cells };
        assert(copy@ =~~= self@);
        copy
    }

    /// The state of the square at `pos`.
    pub fn cell(&self, pos: Position) -> (cell: Cell)
        requires
            self@.contains(pos.row as int, pos.column as int),
        ensures
            cell == self@.rows[pos.row as int][pos.column as int],
    {
        proof {
            use_type_invariant(self);
        }
        self.cells[pos.row][pos.column]
    }

    /// Puts every listed square in state `cell`; no other square changes.
    pub fn paint(&mut self, squares: &Vec<Position>, cell: Cell)
        requires
            all_on_board(squares@, old(self)@.width as int, old(self)@.height as int),
        ensures
            final(self)@ == old(self)@.painted(squares@, cell),
            final(self)@.wf(),
    {
        proof {
            use_type_invariant(&*self);
            self.lemma_view_wf();
        }
        paint_rows(&mut self.cells, squares, cell, self.width, self.height);
        proof {
            use_type_invariant(&*self);
            self.lemma_view_wf();
        }
        assert(self@ =~~= old(self)@.painted(squares@, cell));
    }

    /// The number of columns.
    pub fn width(&self) -> (width: u16)
        ensures
            width == self@.width,
            self@.wf(),
    {
        proof {
            use_type_invariant(self);
            self.lemma_view_wf();
        }
        self.width
    }

    /// The number of rows.
    pub fn height(&self) -> (height: u16)
        ensures
            height == self@.height,
            self@.wf(),
    {
        proof {
            use_type_invariant(self);
            self.lemma_view_wf();
        }
        self.height
    }

    /// The squares, row by row from the top, each row from the left.
    pub fn cells(&self) -> (rows: &Vec<Vec<Cell>>)
        ensures
            rows@.map_values(|row: Vec<Cell>| row@) == self@.rows,
            self@.wf(),
    {
        proof {
            use_type_invariant(self);
            self.lemma_view_wf();
        }
        &self.cells
    }

    /// One if the square in row `row` and column `column` is alive, else zero.
    fn tally(&self, row: usize, column: usize) -> (live: u8)
        requires
            row < self@.height,
            column < self@.width,
        ensures
            live == self@.live(row as int, column as int),
            live <= 1,
    {
        proof {
            use_type_invariant(self);
            lemma_small_mod(row as nat, self@.height);
            lemma_small_mod(column as nat, self@.width);
        }
        if self.cells[row][column].is_alive() {
            1
        } else {
            0
        }
    }

    /// Counts the live squares among the eight neighbours of `pos` on the
    /// torus. The position itself is wrapped onto the board first, and each
    /// of the eight offsets is wrapped on its own.
    pub fn count_living_neighbors(&self, pos: Position) -> (count: u8)
        ensures
            count == self@.live_neighbors(pos.row as int, pos.column as int),
            count <= 8,
    {
        proof {
            use_type_invariant(self);
            self.lemma_view_wf();
        }
        let height = self.height as usize;
        let width = self.width as usize;
        let row = pos.row % height;
        let column = pos.column % width;
        let row_up = ring_before(row, height);
        let row_down = ring_after(row, height);
        let left_column = ring_before(column, width);
        let right_column = ring_after(column, width);
        proof {
            lemma_wrap_then_shift(pos.row as int, -1, height as int);
            lemma_wrap_then_shift(pos.row as int, 1, height as int);
            lemma_wrap_then_shift(pos.column as int, -1, width as int);
            lemma_wrap_then_shift(pos.column as int, 1, width as int);
            lemma_small_mod(row as nat, height as nat);
            lemma_small_mod(column as nat, width as nat);
            lemma_small_mod(row_up as nat, height as nat);
            lemma_small_mod(row_down as nat, height as nat);
            lemma_small_mod(left_column as nat, width as nat);
            lemma_small_mod(right_column as nat, width as nat);
        }
        self.tally(row_up, left_column) + self.tally(row_up, column) + self.tally(row_up, right_column)
            + self.tally(row, left_column) + self.tally(row, right_column)
            + self.tally(row_down, left_column) + self.tally(row_down, column) + self.tally(row_down, right_column)
    }

    /// Toggles the square at `pos`; no other square changes.
    pub fn flip_cell(&mut self, pos: Position)
        requires
            old(self)@.contains(pos.row as int, pos.column as int),
        ensures
            final(self)@ == old(self)@.with_cell(
                pos.row as int,
                pos.column as int,
                old(self)@.rows[pos.row as int][pos.column as int].flipped(),
            ),
            final(self)@.wf(),
    {
        proof {
            use_type_invariant(&*self);
            self.lemma_view_wf();
        }
        let mut cell = self.cells[pos.row][pos.column];
        cell.flip();
        set_cell(&mut self.cells, pos.row, pos.column, cell);
        assert(self@ =~~= old(self)@.with_cell(
            pos.row as int,
            pos.column as int,
            old(self)@.rows[pos.row as int][pos.column as int].flipped(),
        ));
    }

    /// Translates a character cell of a terminal of size `term_rect` into the
    /// square of the board that is drawn there, or fails if none is.
    pub fn in_bounds(&self, row: u16, column: u16, term_rect: Rect) -> (found: Result<Position, ()>)
        ensures
            found == (if on_screen(self@, row as int, column as int, term_rect.width as int) {
                Ok::<Position, ()>(square_on_screen(self@, row as int, column as int, term_rect.width as int))
            } else {
                Err::<Position, ()>(())
            }),
            found matches Ok(pos) ==> self@.contains(pos.row as int, pos.column as int),
            self@.wf(),
    {
        proof {
            use_type_invariant(self);
            self.lemma_view_wf();
        }
        let drawn_width = self.width as u32 * 2;
        if (term_rect.width as u32) < drawn_width {
            return Err(());
        }
        let left = (term_rect.width as u32 - drawn_width) / 2;
        let right = left + drawn_width;
        let top = Board::GAME_BOARD_TOP as u32;
        let bottom = top + self.height as u32;
        let row = row as u32;
        let column = column as u32;
        match row < bottom && row >= top && column < right && column >= left {
            true => Ok(Position { row: (row - top) as usize, column: (column - left) as usize / 2 }),
            false => Err(()),
        }
    }

    /// Stamps `shape` onto the board with its corner at `pos`: every square
    /// of the pattern, moved by `pos` and wrapped around the edges, comes to
    /// life. No square dies, and no other square changes.
    pub fn add_shape(&mut self, pos: Position, shape: Shape)
        ensures
            final(self)@ == old(self)@.stamped(
                materialized(shape.pattern@, Some(pos), old(self)@.width as int, old(self)@.height as int),
            ),
            final(self)@.wf(),
    {
        proof {
            use_type_invariant(&*self);
            self.lemma_view_wf();
        }
        let positioned_shape = Shape { pattern: shape.pattern, offset: Some(pos) };
        let squares = positioned_shape.get_cells(self.width, self.height);
        assert(all_on_board(squares@, self.width as int, self.height as int));
        self.paint(&squares, Cell::Alive);
    }

    /// Sets every square to the outcome of its own fresh coin toss. Any
    /// board of the same size may result.
    pub fn randomize(&mut self)
        ensures
            final(self)@.width == old(self)@.width,
            final(self)@.height == old(self)@.height,
            final(self)@.wf(),
    {
        proof {
            use_type_invariant(&*self);
            self.lemma_view_wf();
        }
        let mut new_cells: Vec<Vec<Cell>> = Vec::new();
        let mut row: u16 = 0;
        while row < self.height
            invariant
                row <= self.height,
                self == old(self),
                new_cells.len() == row,
                forall|r: int| 0 <= r < row ==> (#[trigger] new_cells[r]).len() == self.width,
            decreases self.height - row,
        {
            let mut new_row: Vec<Cell> = Vec::new();
            let mut column: u16 = 0;
            while column < self.width
                invariant
                    column <= self.width,
                    self == old(self),
                    new_row.len() == column,
                decreases self.width - column,
            {
                let mut cell = Cell::Dead;
                cell.randomize();
                new_row.push(cell);
                column += 1;
            }
            new_cells.push(new_row);
            row += 1;
        }
        self.cells = new_cells;
        proof {
            use_type_invariant(&*self);
            self.lemma_view_wf();
        }
    }

    /// Kills every square.
    pub fn clear(&mut self)
        ensures
            final(self)@ == Grid::filled(old(self)@.width, old(self)@.height, Cell::Dead),
            final(self)@.wf(),
    {
        proof {
            use_type_invariant(&*self);
            self.lemma_view_wf();
        }
        self.cells = uniform_rows(self.width, self.height, Cell::Dead);
        assert(self@ =~~= Grid::filled(old(self)@.width, old(self)@.height, Cell::Dead));
    }

    /// Advances the board by one generation: every square takes the state
    /// that the rule gives it from the board as it stood before the call.
    pub fn tick(&mut self)
        ensures
            final(self)@ == old(self)@.next_generation(),
            final(self)@.wf(),
    {
        proof {
            use_type_invariant(&*self);
            self.lemma_view_wf();
        }
        let mut new_cells: Vec<Vec<Cell>> = Vec::new();
        let mut row: usize = 0;
        while row < self.height as usize
            invariant
                row <= self.height,
                self@.wf(),
                self == old(self),
                new_cells.len() == row,
                forall|r: int| 0 <= r < row ==> (#[trigger] new_cells[r]).len() == self.width,
                forall|r: int, c: int| 0 <= r < row && 0 <= c < self.width ==> (#[trigger] new_cells[r][c])
                    == self@.rows[r][c].next_state(self@.live_neighbors(r, c)),
            decreases self.height - row,
        {
            let mut new_row: Vec<Cell> = Vec::new();
            let mut column: usize = 0;
            while column < self.width as usize
                invariant
                    row < self.height,
                    column <= self.width,
                    self@.wf(),
                    self == old(self),
                    new_row.len() == column,
                    forall|c: int| 0 <= c < column ==> (#[trigger] new_row[c])
                        == self@.rows[row as int][c].next_state(self@.live_neighbors(row as int, c)),
                decreases self.width - column,
            {
                let neighbors = self.count_living_neighbors(Position { row, column });
                new_row.push(self.cells[row][column].evolve(neighbors));
                column += 1;
            }
            new_cells.push(new_row);
            row += 1;
        }
        self.cells = new_cells;
        assert(self@ =~~= old(self)@.next_generation());
    }
}

} // verus!
