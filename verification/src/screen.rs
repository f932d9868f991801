//! The terminal as the library sees it: rectangles of character cells, the
//! lengths that lay the screen out, and the pictures drawn into it.

use vstd::prelude::*;
use crate::board::{all_on_board, Board};
use crate::cell::Cell;
use crate::grid::Grid;
use crate::position::Position;
use crate::shape::Shape;

verus! {

/// A rectangle on the terminal, measured in character cells.
#[derive(Clone, Copy, Debug, PartialEq, Eq, Structural)]
pub struct Rect {
    pub x: u16,
    pub y: u16,
    pub width: u16,
    pub height: u16,
}

/// The lengths, in character cells, from which the screen is laid out.
#[derive(Clone, Copy, Debug, PartialEq, Eq, Structural)]
pub struct ScreenPlan {
    /// The height of the part of the screen that holds the board.
    pub game_row_height: u16,
    /// The width left free on either side of the board.
    pub board_margin_width: u16,
    /// The width of the board with its frame.
    pub board_area_width: u16,
    /// The width left free on either side of the list of controls.
    pub controls_margin_width: u16,
}

impl ScreenPlan {
    /// The rows that the board's part of the screen has beyond the board.
    pub const GAME_ROW_PADDING: u16 = 10;

    /// The height of the part of the screen that holds the controls.
    pub const CONTROLS_ROW_HEIGHT: u16 = 10;

    /// The width of the list of controls.
    pub const CONTROLS_WIDTH: u16 = 38;

    /// Whether every length of the plan can be had: the terminal is at least
    /// as wide as the list of controls, and the board with its frame and
    /// padding is not larger than a terminal can be.
    pub open spec fn feasible(term_width: int, board_width: int, board_height: int) -> bool {
        &&& term_width >= ScreenPlan::CONTROLS_WIDTH
        &&& 2 * board_width + 2 <= u16::MAX
        &&& board_height + ScreenPlan::GAME_ROW_PADDING <= u16::MAX
    }

    /// The plan for a board of the given size in a terminal of the given
    /// width.
    pub open spec fn planned(term_width: int, board_width: int, board_height: int) -> ScreenPlan {
        ScreenPlan {
            game_row_height: (board_height + ScreenPlan::GAME_ROW_PADDING) as u16,
            board_margin_width: if term_width > 2 * board_width {
                ((term_width - 2 * board_width) / 2) as u16
            } else {
                0
            },
            board_area_width: (2 * board_width + 2) as u16,
            controls_margin_width: ((term_width - ScreenPlan::CONTROLS_WIDTH) / 2) as u16,
        }
    }

    /// Works out the lengths for showing `game_board` in a terminal of size
    /// `term_size`, or nothing where one of them cannot be had.
    pub fn new(term_size: Rect, game_board: &Board) -> (plan: Option<ScreenPlan>)
        ensures
            plan == (if ScreenPlan::feasible(
                term_size.width as int,
                game_board@.width as int,
                game_board@.height as int,
            ) {
                Some(ScreenPlan::planned(term_size.width as int, game_board@.width as int, game_board@.height as int))
            } else {
                None
            }),
    {
        let width = game_board.width();
        let height = game_board.height();
        if term_size.width < ScreenPlan::CONTROLS_WIDTH || width > (u16::MAX - 2) / 2 || height > u16::MAX
            - ScreenPlan::GAME_ROW_PADDING {
            return None;
        }
        let board_margin_width = if term_size.width > width * 2 {
            (term_size.width - (width * 2)) / 2
        } else {
            0
        };
        Some(
            ScreenPlan {
                game_row_height: height + ScreenPlan::GAME_ROW_PADDING,
                board_margin_width,
                board_area_width: width * 2 + 2,
                controls_margin_width: (term_size.width - ScreenPlan::CONTROLS_WIDTH) / 2,
            },
        )
    }
}

/// What one character cell of a picture shows.
#[derive(Clone, Copy, Debug, PartialEq, Eq, Structural)]
pub enum Glyph {
    /// A square in the given state.
    Square(Cell),
    /// The bar that parts two squares.
    Bar,
}

/// What a picture holds, as plain mathematics: a canvas of squares and the
/// part of its area that is drawn. Columns `margin` to `margin + draw_width`
/// and rows zero to `draw_height` of the area are drawn, all counted from the
/// area's top left corner.
#[verifier::ext_equal]
pub struct Drawing {
    pub canvas: Grid,
    pub margin: nat,
    pub draw_width: nat,
    pub draw_height: nat,
}

impl Drawing {
    /// The canvas is a board, and every character cell that is drawn has a
    /// square of the canvas to show.
    pub open spec fn wf(self) -> bool {
        &&& self.canvas.wf()
        &&& self.draw_height <= self.canvas.height
        &&& self.draw_width <= 2 * self.canvas.width
        &&& self.margin + self.draw_width <= u16::MAX
    }

    /// Whether the character cell in column `x` and row `y` of the area is
    /// drawn.
    pub open spec fn covers(self, x: int, y: int) -> bool {
        self.margin <= x < self.margin + self.draw_width && 0 <= y < self.draw_height
    }

    /// What the character cell in column `x` and row `y` of the area shows,
    /// if it is drawn: in an even column the square of the canvas in row `y`
    /// and in column half the distance from the margin, in an odd column a
    /// bar.
    pub open spec fn glyph(self, x: int, y: int) -> Glyph {
        if x % 2 == 0 {
            Glyph::Square(self.canvas.rows[y][(x - self.margin) / 2])
        } else {
            Glyph::Bar
        }
    }
}

/// A picture of squares, ready to be copied to the terminal.
#[derive(Debug)]
pub struct Picture {
    canvas: Board,
    margin: u16,
    draw_width: u16,
    draw_height: u16,
}

impl View for Picture {
    type V = Drawing;

    closed spec fn view(&self) -> Drawing {
        Drawing {
            canvas: self.canvas@,
            margin: self.margin as nat,
            draw_width: self.draw_width as nat,
            draw_height: self.draw_height as nat,
        }
    }
}

impl Picture {
    #[verifier::type_invariant]
    spec fn well_formed(self) -> bool {
        self@.wf()
    }

    /// The first column of the area that is drawn.
    pub fn margin(&self) -> (margin: u16)
        ensures
            margin == self@.margin,
            self@.wf(),
    {
        proof {
            use_type_invariant(self);
        }
        self.margin
    }

    /// The number of columns that are drawn.
    pub fn draw_width(&self) -> (draw_width: u16)
        ensures
            draw_width == self@.draw_width,
            self@.wf(),
    {
        proof {
            use_type_invariant(self);
        }
        self.draw_width
    }

    /// The number of rows that are drawn.
    pub fn draw_height(&self) -> (draw_height: u16)
        ensures
            draw_height == self@.draw_height,
            self@.wf(),
    {
        proof {
            use_type_invariant(self);
        }
        self.draw_height
    }

    /// What the character cell in column `x` and row `y` of the area shows,
    /// or nothing if it is not drawn.
    pub fn glyph(&self, x: u16, y: u16) -> (glyph: Option<Glyph>)
        ensures
            glyph == (if self@.covers(x as int, y as int) {
                Some(self@.glyph(x as int, y as int))
            } else {
                None
            }),
    {
        proof {
            use_type_invariant(self);
        }
        if x < self.margin || x - self.margin >= self.draw_width || y >= self.draw_height {
            return None;
        }
        if x % 2 == 0 {
            let column = ((x - self.margin) / 2) as usize;
            Some(Glyph::Square(self.canvas.cell(Position { row: y as usize, column })))
        } else {
            Some(Glyph::Bar)
        }
    }
}

/// The smaller of two lengths.
fn smaller(a: u16, b: u16) -> (least: u16)
    ensures
        least == (if a < b {
            a
        } else {
            b
        }),
{
    if a < b {
        a
    } else {
        b
    }
}

/// The larger of two lengths.
fn larger(a: u16, b: u16) -> (most: u16)
    ensures
        most == (if a > b {
            a
        } else {
            b
        }),
{
    if a > b {
        a
    } else {
        b
    }
}

impl Board {
    /// The picture of this board in `area`: the squares start at the area's
    /// left edge, two columns each, and are cut off where the area ends.
    pub open spec fn drawn(grid: Grid, area: Rect) -> Drawing {
        Drawing {
            canvas: grid,
            margin: 0,
            draw_width: if area.width < 2 * grid.width {
                area.width as nat
            } else {
                2 * grid.width
            },
            draw_height: if area.height < grid.height {
                area.height as nat
            } else {
                grid.height
            },
        }
    }

    /// The picture of this board in an area of the given size.
    pub fn picture(&self, area: Rect) -> (picture: Picture)
        ensures
            picture@ == Board::drawn(self@, area),
            picture@.wf(),
    {
        let canvas = self.duplicate();
        let width = self.width();
        let height = self.height();
        let draw_width = if (area.width as u32) < width as u32 * 2 {
            area.width
        } else {
            width * 2
        };
        Picture { canvas, margin: 0, draw_width, draw_height: smaller(area.height, height) }
    }
}

/// The pattern's squares, each moved down by `down` and right by `right`.
pub open spec fn shifted(pattern: Seq<Position>, down: nat, right: nat) -> Seq<Position> {
    pattern.map_values(|square: Position| Position { row: (square.row + down) as usize, column: (square.column + right) as usize })
}

/// The largest column among the first `count` squares of the pattern, or
/// zero if there is none.
pub open spec fn max_column(pattern: Seq<Position>, count: nat) -> nat
    decreases count,
{
    if count == 0 {
        0
    } else {
        let before = max_column(pattern, (count - 1) as nat);
        if pattern[count - 1].column > before {
            pattern[count - 1].column as nat
        } else {
            before
        }
    }
}

impl Shape {
    /// The least height of the canvas on which a shape is previewed.
    pub const PREVIEW_HEIGHT: u16 = 6;

    /// The least width of the canvas on which a shape is previewed.
    pub const PREVIEW_WIDTH: u16 = 9;

    /// The rows left free above a previewed pattern.
    pub const PREVIEW_TOP: usize = 2;

    /// The columns left free to the left of a previewed pattern.
    pub const PREVIEW_LEFT: usize = 1;

    /// The width of the canvas for a preview in an area of the given width.
    pub open spec fn canvas_width(area: Rect) -> nat {
        if area.width > Shape::PREVIEW_WIDTH {
            area.width as nat
        } else {
            Shape::PREVIEW_WIDTH as nat
        }
    }

    /// The height of the canvas for a preview in an area of the given height.
    pub open spec fn canvas_height(area: Rect) -> nat {
        if area.height > Shape::PREVIEW_HEIGHT {
            area.height as nat
        } else {
            Shape::PREVIEW_HEIGHT as nat
        }
    }

    /// Whether the pattern, moved to its place on the canvas, fits there.
    pub open spec fn previewable(pattern: Seq<Position>, area: Rect) -> bool {
        forall|i: int| 0 <= i < pattern.len() ==> (#[trigger] pattern[i]).row + Shape::PREVIEW_TOP < Shape::canvas_height(area)
            && pattern[i].column + Shape::PREVIEW_LEFT < Shape::canvas_width(area)
    }

    /// The preview of a pattern in `area`: the pattern is alive on a dead
    /// canvas at least as large as the area, two rows down and one column
    /// right of the corner. As many columns are drawn as the pattern with
    /// three more squares takes, or as the area has if that is less, in the
    /// middle of the canvas; all rows of the area are drawn.
    pub open spec fn preview(pattern: Seq<Position>, area: Rect) -> Drawing {
        let width = Shape::canvas_width(area);
        let height = Shape::canvas_height(area);
        let wanted = (max_column(pattern, pattern.len()) + 3) * 2;
        let draw_width = if area.width > wanted {
            wanted as nat
        } else {
            area.width as nat
        };
        Drawing {
            canvas: Grid::filled(width, height, Cell::Dead).stamped(
                shifted(pattern, Shape::PREVIEW_TOP as nat, Shape::PREVIEW_LEFT as nat),
            ),
            margin: if width > draw_width {
                ((width - draw_width) / 2) as nat
            } else {
                0
            },
            draw_width,
            draw_height: area.height as nat,
        }
    }

    /// The preview of this shape's pattern in an area of the given size, or
    /// nothing where the pattern does not fit on the canvas.
    pub fn picture(&self, area: Rect) -> (picture: Option<Picture>)
        ensures
            match picture {
                Some(picture) => {
                    &&& Shape::previewable(self.pattern@, area)
                    &&& picture@ == Shape::preview(self.pattern@, area)
                    &&& picture@.wf()
                },
                None => !Shape::previewable(self.pattern@, area),
            },
    {
        let width = larger(area.width, Shape::PREVIEW_WIDTH);
        let height = larger(area.height, Shape::PREVIEW_HEIGHT);
        let mut squares: Vec<Position> = Vec::new();
        let mut widest: usize = 0;
        let mut i: usize = 0;
        while i < self.pattern.len()
            invariant
                i <= self.pattern.len(),
                width == Shape::canvas_width(area),
                height == Shape::canvas_height(area),
                squares.len() == i,
                widest == max_column(self.pattern@, i as nat),
                widest + Shape::PREVIEW_LEFT < width || i == 0,
                forall|j: int| 0 <= j < i ==> (#[trigger] self.pattern[j]).row + Shape::PREVIEW_TOP < height
                    && self.pattern[j].column + Shape::PREVIEW_LEFT < width,
                forall|j: int| 0 <= j < i ==> (#[trigger] squares[j]) == (Position {
                    row: (self.pattern[j].row + Shape::PREVIEW_TOP) as usize,
                    column: (self.pattern[j].column + Shape::PREVIEW_LEFT) as usize,
                }),
            decreases self.pattern.len() - i,
        {
            let square = self.pattern[i];
            if square.row >= height as usize - Shape::PREVIEW_TOP || square.column >= width as usize
                - Shape::PREVIEW_LEFT {
                return None;
            }
            squares.push(Position { row: square.row + Shape::PREVIEW_TOP, column: square.column + Shape::PREVIEW_LEFT });
            if square.column > widest {
                widest = square.column;
            }
            i += 1;
        }
        assert(squares@ =~= shifted(self.pattern@, Shape::PREVIEW_TOP as nat, Shape::PREVIEW_LEFT as nat));
        let mut canvas = match Board::uniform(width, height, Cell::Dead) {
            Ok(canvas) => canvas,
            Err(_) => {
                return None;
            },
        };
        assert(all_on_board(squares@, width as int, height as int));
        canvas.paint(&squares, Cell::Alive);
        let wanted = (widest as u32 + 3) * 2;
        let draw_width = if area.width as u32 > wanted {
            wanted as u16
        } else {
            area.width
        };
        let margin = if width > draw_width {
            (width - draw_width) / 2
        } else {
            0
        };
        Some(Picture { canvas, margin, draw_width, draw_height: area.height })
    }
}

/// The sign that tells whether the game would play or pause.
#[derive(Clone, Copy, Debug, PartialEq, Eq, Structural)]
pub enum ControlToggle {
    Play,
    Pause,
}

impl ControlToggle {
    /// The squares of the sign.
    pub const PLAYPAUSE: [(usize, usize); 36] = [
        (0, 0),
        (1, 0),
        (2, 0),
        (3, 0),
        (4, 0),
        (5, 0),
        (6, 0),
        (0, 1),
        (6, 1),
        (0, 2),
        (1, 2),
        (5, 2),
        (6, 2),
        (0, 3),
        (1, 3),
        (2, 3),
        (4, 3),
        (5, 3),
        (6, 3),
        (0, 4),
        (1, 4),
        (2, 4),
        (3, 4),
        (4, 4),
        (5, 4),
        (6, 4),
        (1, 6),
        (2, 6),
        (3, 6),
        (4, 6),
        (5, 6),
        (1, 8),
        (2, 8),
        (3, 8),
        (4, 8),
        (5, 8),
    ];

    /// The height of the sign.
    pub const SIGN_HEIGHT: u16 = 7;

    /// The width of the sign in squares.
    pub const SIGN_WIDTH: u16 = 10;

    /// The state of the squares around the sign: dead for `Play`, alive for
    /// `Pause`.
    pub open spec fn ground(self) -> Cell {
        match self {
            ControlToggle::Play => Cell::Dead,
            ControlToggle::Pause => Cell::Alive,
        }
    }

    /// The columns that are drawn in an area of the given width.
    pub open spec fn sign_draw_width(area: Rect) -> nat {
        if area.width < 2 * ControlToggle::SIGN_WIDTH {
            area.width as nat
        } else {
            2 * ControlToggle::SIGN_WIDTH as nat
        }
    }

    /// The width of the canvas for an area of the given width.
    pub open spec fn sign_canvas_width(area: Rect) -> nat {
        if area.width > ControlToggle::SIGN_WIDTH {
            area.width as nat
        } else {
            ControlToggle::SIGN_WIDTH as nat
        }
    }

    /// The height of the canvas for an area of the given height.
    pub open spec fn sign_canvas_height(area: Rect) -> nat {
        if area.height > ControlToggle::SIGN_HEIGHT {
            area.height as nat
        } else {
            ControlToggle::SIGN_HEIGHT as nat
        }
    }

    /// Whether the sign can be placed in an area of the given width: where
    /// the canvas is wider than what is drawn, half the difference must
    /// leave room for the two columns by which the sign is moved left.
    pub open spec fn placeable(area: Rect) -> bool {
        ControlToggle::sign_canvas_width(area) > ControlToggle::sign_draw_width(area) ==> (
        ControlToggle::sign_canvas_width(area) - ControlToggle::sign_draw_width(area)) / 2 >= 2
    }

    /// The sign in `area`: its squares stand out from the ground on a canvas
    /// at least as large as the area.
    pub open spec fn sign(self, area: Rect) -> Drawing {
        let width = ControlToggle::sign_canvas_width(area);
        let height = ControlToggle::sign_canvas_height(area);
        let draw_width = ControlToggle::sign_draw_width(area);
        Drawing {
            canvas: Grid::filled(width, height, self.ground()).painted(
                ControlToggle::PLAYPAUSE@.map_values(|pair: (usize, usize)| Position::of_pair(pair)),
                self.ground().flipped(),
            ),
            margin: if width > draw_width {
                ((width - draw_width) / 2 - 2) as nat
            } else {
                0
            },
            draw_width,
            draw_height: if area.height < ControlToggle::SIGN_HEIGHT {
                area.height as nat
            } else {
                ControlToggle::SIGN_HEIGHT as nat
            },
        }
    }

    /// The picture of the sign in an area of the given size, or nothing where
    /// it cannot be placed.
    pub fn picture(&self, area: Rect) -> (picture: Option<Picture>)
        ensures
            match picture {
                Some(picture) => {
                    &&& ControlToggle::placeable(area)
                    &&& picture@ == self.sign(area)
                    &&& picture@.wf()
                },
                None => !ControlToggle::placeable(area),
            },
    {
        let shape = Shape::new(crate::shape::table_to_vec(&ControlToggle::PLAYPAUSE), None);
        let width = larger(area.width, ControlToggle::SIGN_WIDTH);
        let height = larger(area.height, ControlToggle::SIGN_HEIGHT);
        let (ground, ink) = match self {
            ControlToggle::Play => (Cell::Dead, Cell::Alive),
            ControlToggle::Pause => (Cell::Alive, Cell::Dead),
        };
        let draw_width = smaller(area.width, 2 * ControlToggle::SIGN_WIDTH);
        let margin = if width > draw_width {
            if (width - draw_width) / 2 < 2 {
                return None;
            }
            (width - draw_width) / 2 - 2
        } else {
            0
        };
        let mut canvas = match Board::uniform(width, height, ground) {
            Ok(canvas) => canvas,
            Err(_) => {
                return None;
            },
        };
        assert(all_on_board(shape.pattern@, width as int, height as int)) by {
            assert forall|i: int| 0 <= i < shape.pattern@.len() implies (#[trigger] shape.pattern@[i]).row < 7
                && shape.pattern@[i].column < 10 by {
                assert(ControlToggle::PLAYPAUSE@[i].0 < 7 && ControlToggle::PLAYPAUSE@[i].1 < 10);
            }
        }
        canvas.paint(&shape.pattern, ink);
        Some(Picture { canvas, margin, draw_width, draw_height: smaller(area.height, ControlToggle::SIGN_HEIGHT) })
    }
}

} // verus!
