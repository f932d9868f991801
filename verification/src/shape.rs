//! Shapes: reusable patterns of live squares.

use vstd::prelude::*;
use vstd::arithmetic::div_mod::lemma_add_mod_noop;
use crate::position::Position;

verus! {

/// A pattern of squares and, optionally, the place to put it.
///
/// Without an offset the pattern's squares are meant as they stand. With an
/// offset every square is moved by it and wrapped onto the board at hand.
#[derive(Clone, Debug)]
pub struct Shape {
    pub pattern: Vec<Position>,
    pub offset: Option<Position>,
}

/// The square `square` moved by `offset` and wrapped onto a board of the
/// given size.
pub open spec fn translated(square: Position, offset: Position, width: int, height: int) -> Position {
    Position {
        row: ((square.row + offset.row) % height) as usize,
        column: ((square.column + offset.column) % width) as usize,
    }
}

/// The squares that a pattern with an optional offset marks on a board of the
/// given size, in the pattern's order.
pub open spec fn materialized(pattern: Seq<Position>, offset: Option<Position>, width: int, height: int) -> Seq<Position> {
    match offset {
        Some(point) => pattern.map_values(|square: Position| translated(square, point, width, height)),
        None => pattern,
    }
}

/// `(a + b) mod n`, computed without overflow.
fn add_wrapped(a: usize, b: usize, n: u16) -> (sum: usize)
    requires
        n > 0,
    ensures
        sum == (a + b) % (n as int),
        sum < n,
{
    proof {
        lemma_add_mod_noop(a as int, b as int, n as int);
    }
    ((a % (n as usize)) + (b % (n as usize))) % (n as usize)
}

/// The squares of a fixed table, as a vector.
pub(crate) fn table_to_vec<const N: usize>(table: &[(usize, usize); N]) -> (cells: Vec<(usize, usize)>)
    ensures
        cells@ == table@,
{
    let mut cells: Vec<(usize, usize)> = Vec::new();
    let mut i: usize = 0;
    while i < N
        invariant
            i <= N,
            cells.len() == i,
            forall|j: int| 0 <= j < i ==> (#[trigger] cells[j]) == table[j],
        decreases N - i,
    {
        cells.push(table[i]);
        i += 1;
    }
    assert(cells@ =~= table@);
    cells
}

/// Whether two strings hold the same characters.
fn same_text(a: &str, b: &str) -> (same: bool)
    ensures
        same == (a@ == b@),
{
    let length = a.unicode_len();
    if length != b.unicode_len() {
        return false;
    }
    let mut i: usize = 0;
    while i < length
        invariant
            i <= length,
            length == a@.len(),
            length == b@.len(),
            forall|j: int| 0 <= j < i ==> a@[j] == b@[j],
        decreases length - i,
    {
        if a.get_char(i) != b.get_char(i) {
            return false;
        }
        i += 1;
    }
    assert(a@ =~= b@);
    true
}

/// The squares of the preset pattern known by `name`, if there is one.
pub open spec fn preset_named(name: Seq<char>) -> Option<Seq<(usize, usize)>> {
    if name == "acorn"@ {
        Some(Shape::ACORN@)
    } else if name == "glider"@ {
        Some(Shape::GLIDER@)
    } else if name == "rpentomino"@ {
        Some(Shape::R_PENTOMINO@)
    } else if name == "thunderbird"@ {
        Some(Shape::THUNDERBIRD@)
    } else if name == "piheptomino"@ {
        Some(Shape::PI_HEPTOMINO@)
    } else if name == "bheptomino"@ {
        Some(Shape::B_HEPTOMINO@)
    } else {
        None
    }
}

/// How many preset patterns a player can cycle through.
pub const PRESET_COUNT: usize = 6;

/// The squares of the preset pattern in place `index` of the cycle, which
/// starts with the acorn.
pub open spec fn preset_cells(index: int) -> Seq<(usize, usize)> {
    if index == 0 {
        Shape::ACORN@
    } else if index == 1 {
        Shape::GLIDER@
    } else if index == 2 {
        Shape::R_PENTOMINO@
    } else if index == 3 {
        Shape::PI_HEPTOMINO@
    } else if index == 4 {
        Shape::B_HEPTOMINO@
    } else {
        Shape::THUNDERBIRD@
    }
}

/// The pattern of the preset in place `index` of the cycle.
pub open spec fn preset_pattern(index: int) -> Seq<Position> {
    preset_cells(index).map_values(|pair: (usize, usize)| Position::of_pair(pair))
}

impl Shape {
    /// The glider, which travels across the board.
    pub const GLIDER: [(usize, usize); 5] = [(0, 2), (1, 0), (1, 2), (2, 1), (2, 2)];

    /// The acorn, seven squares that grow for thousands of generations.
    pub const ACORN: [(usize, usize); 7] = [(0, 1), (1, 3), (2, 0), (2, 1), (2, 4), (2, 5), (2, 6)];

    /// The R-pentomino.
    pub const R_PENTOMINO: [(usize, usize); 5] = [(0, 1), (0, 2), (1, 0), (1, 1), (2, 1)];

    /// The pi-heptomino.
    pub const PI_HEPTOMINO: [(usize, usize); 7] = [(0, 0), (0, 1), (0, 2), (1, 0), (1, 2), (2, 0), (2, 2)];

    /// The B-heptomino.
    pub const B_HEPTOMINO: [(usize, usize); 7] = [(0, 0), (0, 2), (0, 3), (1, 0), (1, 1), (1, 2), (2, 1)];

    /// The thunderbird.
    pub const THUNDERBIRD: [(usize, usize); 6] = [(0, 0), (0, 1), (0, 2), (2, 1), (3, 1), (4, 1)];

    /// The squares this shape marks on a board of the given size.
    pub open spec fn squares(self, width: int, height: int) -> Seq<Position> {
        materialized(self.pattern@, self.offset, width, height)
    }

    /// A shape with the given `(row, column)` squares, in their order, and the
    /// given offset.
    pub fn new(cells: Vec<(usize, usize)>, offset: Option<Position>) -> (shape: Shape)
        ensures
            shape.pattern@ == cells@.map_values(|pair: (usize, usize)| Position::of_pair(pair)),
            shape.offset == offset,
    {
        let mut pattern: Vec<Position> = Vec::new();
        let mut i: usize = 0;
        while i < cells.len()
            invariant
                i <= cells.len(),
                pattern.len() == i,
                forall|j: int| 0 <= j < i ==> (#[trigger] pattern[j]) == Position::of_pair(cells[j]),
            decreases cells.len() - i,
        {
            let pair = cells[i];
            pattern.push(Position { row: pair.0, column: pair.1 });
            i += 1;
        }
        assert(pattern@ =~= cells@.map_values(|pair: (usize, usize)| Position::of_pair(pair)));
        Shape { pattern, offset }
    }

    /// The squares of the preset pattern known by `name`: one of `acorn`,
    /// `glider`, `rpentomino`, `thunderbird`, `piheptomino` and `bheptomino`.
    /// Any other name has no pattern.
    pub fn preset(name: &str) -> (cells: Option<Vec<(usize, usize)>>)
        ensures
            match cells {
                Some(cells) => preset_named(name@) == Some(cells@),
                None => preset_named(name@) is None,
            },
    {
        if same_text(name, "acorn") {
            Some(table_to_vec(&Shape::ACORN))
        } else if same_text(name, "glider") {
            Some(table_to_vec(&Shape::GLIDER))
        } else if same_text(name, "rpentomino") {
            Some(table_to_vec(&Shape::R_PENTOMINO))
        } else if same_text(name, "thunderbird") {
            Some(table_to_vec(&Shape::THUNDERBIRD))
        } else if same_text(name, "piheptomino") {
            Some(table_to_vec(&Shape::PI_HEPTOMINO))
        } else if same_text(name, "bheptomino") {
            Some(table_to_vec(&Shape::B_HEPTOMINO))
        } else {
            None
        }
    }

    /// The preset shape in place `index` of the cycle, without an offset.
    pub fn preset_at(index: usize) -> (shape: Shape)
        ensures
            shape.pattern@ == preset_pattern(index as int),
            shape.offset is None,
    {
        let cells = if index == 0 {
            table_to_vec(&Shape::ACORN)
        } else if index == 1 {
            table_to_vec(&Shape::GLIDER)
        } else if index == 2 {
            table_to_vec(&Shape::R_PENTOMINO)
        } else if index == 3 {
            table_to_vec(&Shape::PI_HEPTOMINO)
        } else if index == 4 {
            table_to_vec(&Shape::B_HEPTOMINO)
        } else {
            table_to_vec(&Shape::THUNDERBIRD)
        };
        Shape::new(cells, None)
    }

    /// A copy of this shape.
    pub fn duplicate(&self) -> (copy: Shape)
        ensures
            copy.pattern@ == self.pattern@,
            copy.offset == self.offset,
    {
        let mut pattern: Vec<Position> = Vec::new();
        let mut i: usize = 0;
        while i < self.pattern.len()
            invariant
                i <= self.pattern.len(),
                pattern.len() == i,
                forall|j: int| 0 <= j < i ==> (#[trigger] pattern[j]) == self.pattern[j],
            decreases self.pattern.len() - i,
        {
            pattern.push(self.pattern[i]);
            i += 1;
        }
        assert(pattern@ =~= self.pattern@);
        Shape { pattern, offset: self.offset }
    }

    /// The squares this shape marks on a board `width` wide and `height`
    /// high, in the pattern's order. With an offset, each is the pattern's
    /// square moved by the offset and wrapped; without one, the pattern's
    /// squares are handed back untouched.
    pub fn get_cells(self, width: u16, height: u16) -> (cells: Vec<Position>)
        requires
            self.offset is Some ==> width > 0 && height > 0,
        ensures
            cells@ == self.squares(width as int, height as int),
    {
        match self.offset {
            None => self.pattern,
            Some(point) => {
                let mut cells: Vec<Position> = Vec::new();
                let mut i: usize = 0;
                while i < self.pattern.len()
                    invariant
                        i <= self.pattern.len(),
                        width > 0 && height > 0,
                        cells.len() == i,
                        forall|j: int| 0 <= j < i ==> (#[trigger] cells[j]) == translated(
                            self.pattern[j],
                            point,
                            width as int,
                            height as int,
                        ),
                    decreases self.pattern.len() - i,
                {
                    let square = self.pattern[i];
                    cells.push(
                        Position {
                            row: add_wrapped(square.row, point.row, height),
                            column: add_wrapped(square.column, point.column, width),
                        },
                    );
                    i += 1;
                }
                assert(cells@ =~= self.squares(width as int, height as int));
                cells
            },
        }
    }
}

} // verus!
