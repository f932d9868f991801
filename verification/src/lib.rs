//! Conway's Game of Life on a finite torus: the board, the generation rule,
//! and the shapes that seed and stamp it.

pub mod board;
pub mod cell;
pub mod grid;
pub mod input;
pub mod laws;
pub mod position;
pub mod screen;
pub mod shape;
pub mod state;

pub use board::{Board, BoardError};
pub use cell::Cell;
pub use grid::Grid;
pub use input::{process_input, Key, Modifiers, UserEvent};
pub use position::Position;
pub use screen::{ControlToggle, Drawing, Glyph, Picture, Rect, ScreenPlan};
pub use shape::Shape;
pub use state::{Command, GolState, Presets, Session};
