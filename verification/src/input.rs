//! What the player does, and what it means for the game.

use vstd::prelude::*;
use crate::board::{on_screen, square_on_screen};
use crate::state::{Command, GolState, Session};

verus! {

/// The keys the game tells apart.
#[derive(Clone, Copy, Debug, PartialEq, Eq, Structural)]
pub enum Key {
    Esc,
    Tab,
    Right,
    Char(char),
    Other,
}

/// The modifier keys held down together with a key or a click.
#[derive(Clone, Copy, Debug, PartialEq, Eq, Structural)]
pub enum Modifiers {
    /// No modifier at all.
    Plain,
    /// Alt, and nothing else.
    Alt,
    /// Any other combination.
    Other,
}

/// Something the player did.
#[derive(Clone, Copy, Debug, PartialEq, Eq, Structural)]
pub enum UserEvent {
    /// A key was struck.
    Key { code: Key, modifiers: Modifiers },
    /// The left mouse button went down on the character cell in screen row
    /// `row` and screen column `column`.
    LeftClick { row: u16, column: u16, modifiers: Modifiers },
    /// Anything else.
    Other,
}

impl Session {
    /// The command that an event stands for in this session.
    ///
    /// Escape and `q` quit; the space bar pauses and resumes; the right arrow
    /// steps a paused game; tab and `s` pick the next shape; a click toggles
    /// the square under it and a click with Alt stamps the picked shape
    /// there, if a square of the board is drawn under it. All of these count
    /// only without other modifiers. Everything else means nothing.
    pub open spec fn command_for(self, event: UserEvent) -> Command {
        match event {
            UserEvent::Key { code: Key::Esc, modifiers: Modifiers::Plain } => Command::Quit,
            UserEvent::Key { code: Key::Char('q'), modifiers: Modifiers::Plain } => Command::Quit,
            UserEvent::Key { code: Key::Char(' '), modifiers: Modifiers::Plain } => Command::TogglePause,
            UserEvent::Key { code: Key::Right, modifiers: Modifiers::Plain } => if self.paused {
                Command::Step
            } else {
                Command::Nothing
            },
            UserEvent::Key { code: Key::Tab, modifiers: Modifiers::Plain } => Command::CyclePresets,
            UserEvent::Key { code: Key::Char('s'), modifiers: Modifiers::Plain } => Command::CyclePresets,
            UserEvent::LeftClick { row, column, modifiers: Modifiers::Plain } => if on_screen(
                self.grid,
                row as int,
                column as int,
                self.term_rect.width as int,
            ) {
                Command::ToggleCell(square_on_screen(self.grid, row as int, column as int, self.term_rect.width as int))
            } else {
                Command::Nothing
            },
            UserEvent::LeftClick { row, column, modifiers: Modifiers::Alt } => if on_screen(
                self.grid,
                row as int,
                column as int,
                self.term_rect.width as int,
            ) {
                Command::Stamp(square_on_screen(self.grid, row as int, column as int, self.term_rect.width as int))
            } else {
                Command::Nothing
            },
            _ => Command::Nothing,
        }
    }
}

impl GolState {
    /// The command that `event` stands for in this game. A square to toggle
    /// always lies on the board.
    pub fn decode(&self, event: UserEvent) -> (command: Command)
        ensures
            command == self@.command_for(event),
            self@.accepts(command),
    {
        match event {
            UserEvent::Key { code: Key::Esc, modifiers: Modifiers::Plain }
            | UserEvent::Key { code: Key::Char('q'), modifiers: Modifiers::Plain } => Command::Quit,
            UserEvent::Key { code: Key::Char(' '), modifiers: Modifiers::Plain } => Command::TogglePause,
            UserEvent::Key { code: Key::Right, modifiers: Modifiers::Plain } => {
                if self.paused {
                    Command::Step
                } else {
                    Command::Nothing
                }
            },
            UserEvent::Key { code: Key::Tab, modifiers: Modifiers::Plain }
            | UserEvent::Key { code: Key::Char('s'), modifiers: Modifiers::Plain } => Command::CyclePresets,
            UserEvent::LeftClick { row, column, modifiers: Modifiers::Plain } => {
                match self.game_board.in_bounds(row, column, self.term_rect) {
                    Ok(position) => Command::ToggleCell(position),
                    Err(_) => Command::Nothing,
                }
            },
            UserEvent::LeftClick { row, column, modifiers: Modifiers::Alt } => {
                match self.game_board.in_bounds(row, column, self.term_rect) {
                    Ok(position) => Command::Stamp(position),
                    Err(_) => Command::Nothing,
                }
            },
            _ => Command::Nothing,
        }
    }
}

/// Handles one event: works out the command it stands for and carries it
/// out. Fails, without changing anything, exactly when the player quits.
pub fn process_input(user_event: UserEvent, game: &mut GolState) -> (done: Result<(), ()>)
    ensures
        old(game)@.allows(old(game)@.command_for(user_event), final(game)@),
        done is Err <==> old(game)@.command_for(user_event) == Command::Quit,
{
    let command = game.decode(user_event);
    game.apply(command)
}

} // verus!
