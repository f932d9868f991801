//! A game in progress: the board, whether it is running, and the shape that
//! the player has picked.

use vstd::prelude::*;
use crate::board::Board;
use crate::cell::Cell;
use crate::grid::Grid;
use crate::position::Position;
use crate::screen::Rect;
use crate::shape::{materialized, preset_pattern, Shape, PRESET_COUNT};

verus! {

/// The preset shapes and the one that is picked.
#[derive(Debug)]
pub struct Presets {
    shapes: Vec<Shape>,
    index: usize,
}

impl Presets {
    #[verifier::type_invariant]
    spec fn well_formed(self) -> bool {
        &&& self.shapes.len() == PRESET_COUNT
        &&& self.index < PRESET_COUNT
        &&& forall|i: int| 0 <= i < PRESET_COUNT ==> (#[trigger] self.shapes[i]).pattern@ == preset_pattern(i)
        &&& forall|i: int| 0 <= i < PRESET_COUNT ==> (#[trigger] self.shapes[i]).offset is None
    }

    /// The place in the cycle of the shape that is picked.
    pub closed spec fn selected(self) -> nat {
        self.index as nat
    }

    /// The presets, with the first one picked.
    pub fn new() -> (presets: Presets)
        ensures
            presets.selected() == 0,
    {
        let mut shapes: Vec<Shape> = Vec::new();
        let mut i: usize = 0;
        while i < PRESET_COUNT
            invariant
                i <= PRESET_COUNT,
                shapes.len() == i,
                forall|j: int| 0 <= j < i ==> (#[trigger] shapes[j]).pattern@ == preset_pattern(j),
                forall|j: int| 0 <= j < i ==> (#[trigger] shapes[j]).offset is None,
            decreases PRESET_COUNT - i,
        {
            shapes.push(Shape::preset_at(i));
            i += 1;
        }
        Presets { shapes, index: 0 }
    }

    /// Picks the next shape; after the last comes the first.
    pub fn cycle(&mut self)
        ensures
            final(self).selected() == (old(self).selected() + 1) % (PRESET_COUNT as nat),
    {
        proof {
            use_type_invariant(&*self);
        }
        self.index = (self.index + 1) % PRESET_COUNT;
    }

    /// A copy of the shape that is picked. It has no offset.
    pub fn current(&self) -> (shape: Shape)
        ensures
            self.selected() < PRESET_COUNT,
            shape.pattern@ == preset_pattern(self.selected() as int),
            shape.offset is None,
    {
        proof {
            use_type_invariant(self);
        }
        self.shapes[self.index].duplicate()
    }
}

/// What a game in progress holds, as plain mathematics.
#[verifier::ext_equal]
pub struct Session {
    pub grid: Grid,
    pub paused: bool,
    pub term_rect: Rect,
    pub preset: nat,
}

/// An edit to a game in progress.
#[derive(Clone, Copy, Debug, PartialEq, Eq, Structural)]
pub enum Command {
    /// End the game.
    Quit,
    /// Pause a running game, or let a paused one run.
    TogglePause,
    /// Advance the board by one generation.
    Step,
    /// Pick the next preset shape.
    CyclePresets,
    /// Toggle the square at the position.
    ToggleCell(Position),
    /// Stamp the picked shape with its corner at the position.
    Stamp(Position),
    /// Kill every square.
    Clear,
    /// Toss a coin for every square.
    Randomize,
    /// Leave everything as it is.
    Nothing,
}

impl Session {
    /// Whether `command` may lead from this session to `next`. Every command
    /// but `Randomize` allows exactly one outcome.
    pub open spec fn allows(self, command: Command, next: Session) -> bool {
        match command {
            Command::Quit | Command::Nothing => next == self,
            Command::TogglePause => next == (Session { paused: !self.paused, ..self }),
            Command::Step => next == (Session { grid: self.grid.next_generation(), ..self }),
            Command::CyclePresets => next == (Session {
                preset: (self.preset + 1) % (PRESET_COUNT as nat),
                ..self
            }),
            Command::ToggleCell(pos) => next == (Session {
                grid: self.grid.with_cell(
                    pos.row as int,
                    pos.column as int,
                    self.grid.rows[pos.row as int][pos.column as int].flipped(),
                ),
                ..self
            }),
            Command::Stamp(pos) => next == (Session {
                grid: self.grid.stamped(
                    materialized(
                        preset_pattern(self.preset as int),
                        Some(pos),
                        self.grid.width as int,
                        self.grid.height as int,
                    ),
                ),
                ..self
            }),
            Command::Clear => next == (Session {
                grid: Grid::filled(self.grid.width, self.grid.height, Cell::Dead),
                ..self
            }),
            Command::Randomize => {
                &&& next.grid.wf()
                &&& next.grid.width == self.grid.width
                &&& next.grid.height == self.grid.height
                &&& next == (Session { grid: next.grid, ..self })
            },
        }
    }

    /// Whether `command` can be carried out on this session: a square to
    /// toggle must lie on the board.
    pub open spec fn accepts(self, command: Command) -> bool {
        command matches Command::ToggleCell(pos) ==> self.grid.contains(pos.row as int, pos.column as int)
    }
}

/// A game in progress.
#[derive(Debug)]
pub struct GolState {
    pub game_board: Board,
    pub paused: bool,
    pub term_rect: Rect,
    pub presets: Presets,
}

impl View for GolState {
    type V = Session;

    open spec fn view(&self) -> Session {
        Session {
            grid: self.game_board@,
            paused: self.paused,
            term_rect: self.term_rect,
            preset: self.presets.selected(),
        }
    }
}

impl GolState {
    /// A paused game on the given board, in a terminal of the given size,
    /// with the first preset shape picked.
    pub fn new(game_board: Board, term_rect: Rect) -> (state: GolState)
        ensures
            state@ == (Session { grid: game_board@, paused: true, term_rect, preset: 0 }),
            state.game_board == game_board,
    {
        GolState { game_board, paused: true, term_rect, presets: Presets::new() }
    }

    /// Pauses a running game and lets a paused one run.
    pub fn toggle_playpause(&mut self)
        ensures
            final(self)@ == (Session { paused: !old(self)@.paused, ..old(self)@ }),
    {
        self.paused = !self.paused;
    }

    /// Picks the next preset shape; after the last comes the first.
    pub fn cycle_presets(&mut self)
        ensures
            final(self)@ == (Session {
                preset: (old(self)@.preset + 1) % (PRESET_COUNT as nat),
                ..old(self)@
            }),
    {
        self.presets.cycle();
    }

    /// A copy of the preset shape that is picked. It has no offset.
    pub fn current_preset(&self) -> (shape: Shape)
        ensures
            self@.preset < PRESET_COUNT,
            shape.pattern@ == preset_pattern(self@.preset as int),
            shape.offset is None,
    {
        self.presets.current()
    }

    /// Lets one frame pass: a running game advances by one generation, a
    /// paused one stands still.
    pub fn advance(&mut self)
        ensures
            final(self)@ == (Session {
                grid: if old(self)@.paused {
                    old(self)@.grid
                } else {
                    old(self)@.grid.next_generation()
                },
                ..old(self)@
            }),
    {
        if !self.paused {
            self.game_board.tick();
        }
    }

    /// Carries out one command. Only `Quit` fails, to tell the caller that
    /// the game is over; it changes nothing.
    pub fn apply(&mut self, command: Command) -> (done: Result<(), ()>)
        requires
            old(self)@.accepts(command),
        ensures
            old(self)@.allows(command, final(self)@),
            done is Err <==> command == Command::Quit,
    {
        match command {
            Command::Quit => Err(()),
            Command::TogglePause => {
                self.toggle_playpause();
                Ok(())
            },
            Command::Step => {
                self.game_board.tick();
                Ok(())
            },
            Command::CyclePresets => {
                self.cycle_presets();
                Ok(())
            },
            Command::ToggleCell(pos) => {
                self.game_board.flip_cell(pos);
                Ok(())
            },
            Command::Stamp(pos) => {
                let shape = self.current_preset();
                self.game_board.add_shape(pos, shape);
                Ok(())
            },
            Command::Clear => {
                self.game_board.clear();
                Ok(())
            },
            Command::Randomize => {
                self.game_board.randomize();
                Ok(())
            },
            Command::Nothing => Ok(()),
        }
    }
}

} // verus!
