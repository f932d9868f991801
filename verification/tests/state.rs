use game_of_life::{
    process_input, Board, Cell, Command, GolState, Key, Modifiers, Position, Presets, Rect, Shape, UserEvent,
};

fn term() -> Rect {
    Rect { x: 0, y: 0, width: 40, height: 30 }
}

fn game() -> GolState {
    GolState::new(Board::new(6, 6, None).unwrap(), term())
}

fn live(game: &GolState) -> Vec<(usize, usize)> {
    let mut live = Vec::new();
    for (row, cells) in game.game_board.cells().iter().enumerate() {
        for (column, cell) in cells.iter().enumerate() {
            if *cell == Cell::Alive {
                live.push((row, column));
            }
        }
    }
    live
}

fn pairs(shape: &Shape) -> Vec<(usize, usize)> {
    shape.pattern.iter().map(|position| (position.row, position.column)).collect()
}

fn key(code: Key) -> UserEvent {
    UserEvent::Key { code, modifiers: Modifiers::Plain }
}

#[test]
fn new_game_is_paused_with_the_acorn_picked() {
    let game = game();
    assert!(game.paused);
    assert_eq!(game.term_rect, term());
    assert_eq!(pairs(&game.current_preset()), Shape::ACORN.to_vec());
    assert_eq!(game.current_preset().offset, None);
    assert_eq!(game.game_board.width(), 6);
    assert_eq!(game.game_board.height(), 6);
}

#[test]
fn toggle_playpause_flips_the_pause() {
    let mut game = game();
    game.toggle_playpause();
    assert!(!game.paused);
    game.toggle_playpause();
    assert!(game.paused);
}

#[test]
fn cycle_presets_goes_round() {
    let mut game = game();
    let order: [Vec<(usize, usize)>; 6] = [
        Shape::ACORN.to_vec(),
        Shape::GLIDER.to_vec(),
        Shape::R_PENTOMINO.to_vec(),
        Shape::PI_HEPTOMINO.to_vec(),
        Shape::B_HEPTOMINO.to_vec(),
        Shape::THUNDERBIRD.to_vec(),
    ];
    for round in 0..2 {
        for cells in &order {
            assert_eq!(&pairs(&game.current_preset()), cells, "round {round}");
            game.cycle_presets();
        }
    }
}

#[test]
fn presets_cycle_on_their_own() {
    let mut presets = Presets::new();
    assert_eq!(pairs(&presets.current()), Shape::ACORN.to_vec());
    for _ in 0..5 {
        presets.cycle();
    }
    assert_eq!(pairs(&presets.current()), Shape::THUNDERBIRD.to_vec());
    presets.cycle();
    assert_eq!(pairs(&presets.current()), Shape::ACORN.to_vec());
}

#[test]
fn advance_ticks_only_a_running_game() {
    let mut game = GolState::new(Board::seeded(5, 5, Some(vec![(2, 1), (2, 2), (2, 3)]), None).unwrap(), term());
    game.advance();
    assert_eq!(live(&game), vec![(2, 1), (2, 2), (2, 3)]);
    game.toggle_playpause();
    game.advance();
    assert_eq!(live(&game), vec![(1, 2), (2, 2), (3, 2)]);
}

#[test]
fn apply_quit_fails_and_changes_nothing() {
    let mut game = game();
    game.game_board.flip_cell(Position { row: 1, column: 1 });
    assert_eq!(game.apply(Command::Quit), Err(()));
    assert_eq!(live(&game), vec![(1, 1)]);
    assert!(game.paused);
}

#[test]
fn apply_carries_out_each_command() {
    let mut game = game();
    assert_eq!(game.apply(Command::ToggleCell(Position { row: 2, column: 3 })), Ok(()));
    assert_eq!(live(&game), vec![(2, 3)]);
    assert_eq!(game.apply(Command::Nothing), Ok(()));
    assert_eq!(live(&game), vec![(2, 3)]);
    assert_eq!(game.apply(Command::Step), Ok(()));
    assert_eq!(live(&game), vec![]);
    assert_eq!(game.apply(Command::CyclePresets), Ok(()));
    assert_eq!(game.apply(Command::Stamp(Position { row: 5, column: 5 })), Ok(()));
    assert_eq!(live(&game), vec![(0, 1), (0, 5), (1, 0), (1, 1), (5, 1)]);
    assert_eq!(game.apply(Command::TogglePause), Ok(()));
    assert!(!game.paused);
    assert_eq!(game.apply(Command::Clear), Ok(()));
    assert_eq!(live(&game), vec![]);
    assert_eq!(game.apply(Command::Randomize), Ok(()));
    assert_eq!(game.game_board.width(), 6);
    assert_eq!(game.game_board.height(), 6);
    assert!(!game.paused);
}

#[test]
fn decode_reads_the_keys() {
    let game = game();
    assert_eq!(game.decode(key(Key::Esc)), Command::Quit);
    assert_eq!(game.decode(key(Key::Char('q'))), Command::Quit);
    assert_eq!(game.decode(key(Key::Char(' '))), Command::TogglePause);
    assert_eq!(game.decode(key(Key::Right)), Command::Step);
    assert_eq!(game.decode(key(Key::Tab)), Command::CyclePresets);
    assert_eq!(game.decode(key(Key::Char('s'))), Command::CyclePresets);
    assert_eq!(game.decode(key(Key::Char('x'))), Command::Nothing);
    assert_eq!(game.decode(key(Key::Char('Q'))), Command::Nothing);
    assert_eq!(game.decode(key(Key::Other)), Command::Nothing);
    assert_eq!(game.decode(UserEvent::Other), Command::Nothing);
}

#[test]
fn decode_ignores_keys_with_modifiers() {
    let game = game();
    for modifiers in [Modifiers::Alt, Modifiers::Other] {
        for code in [Key::Esc, Key::Char('q'), Key::Char(' '), Key::Right, Key::Tab, Key::Char('s')] {
            assert_eq!(game.decode(UserEvent::Key { code, modifiers }), Command::Nothing);
        }
    }
}

#[test]
fn decode_steps_only_a_paused_game() {
    let mut game = game();
    game.toggle_playpause();
    assert_eq!(game.decode(key(Key::Right)), Command::Nothing);
}

#[test]
fn decode_translates_clicks() {
    let game = game();
    let plain = UserEvent::LeftClick { row: 7, column: 19, modifiers: Modifiers::Plain };
    assert_eq!(game.decode(plain), Command::ToggleCell(Position { row: 2, column: 2 }));
    let alt = UserEvent::LeftClick { row: 7, column: 19, modifiers: Modifiers::Alt };
    assert_eq!(game.decode(alt), Command::Stamp(Position { row: 2, column: 2 }));
    let other = UserEvent::LeftClick { row: 7, column: 19, modifiers: Modifiers::Other };
    assert_eq!(game.decode(other), Command::Nothing);
    let outside = UserEvent::LeftClick { row: 4, column: 19, modifiers: Modifiers::Plain };
    assert_eq!(game.decode(outside), Command::Nothing);
    let outside_alt = UserEvent::LeftClick { row: 7, column: 26, modifiers: Modifiers::Alt };
    assert_eq!(game.decode(outside_alt), Command::Nothing);
}

#[test]
fn process_input_quits_on_escape_and_q() {
    let mut game = game();
    assert_eq!(process_input(key(Key::Esc), &mut game), Err(()));
    assert_eq!(process_input(key(Key::Char('q')), &mut game), Err(()));
    assert!(game.paused);
    assert_eq!(live(&game), vec![]);
}

#[test]
fn process_input_pauses_and_resumes_on_space() {
    let mut game = game();
    assert_eq!(process_input(key(Key::Char(' ')), &mut game), Ok(()));
    assert!(!game.paused);
    assert_eq!(process_input(key(Key::Char(' ')), &mut game), Ok(()));
    assert!(game.paused);
}

#[test]
fn process_input_steps_a_paused_game_on_right() {
    let mut game = GolState::new(Board::seeded(5, 5, Some(vec![(2, 1), (2, 2), (2, 3)]), None).unwrap(), term());
    assert_eq!(process_input(key(Key::Right), &mut game), Ok(()));
    assert_eq!(live(&game), vec![(1, 2), (2, 2), (3, 2)]);
    game.toggle_playpause();
    assert_eq!(process_input(key(Key::Right), &mut game), Ok(()));
    assert_eq!(live(&game), vec![(1, 2), (2, 2), (3, 2)]);
}

#[test]
fn process_input_cycles_presets_on_tab_and_s() {
    let mut game = game();
    assert_eq!(process_input(key(Key::Tab), &mut game), Ok(()));
    assert_eq!(pairs(&game.current_preset()), Shape::GLIDER.to_vec());
    assert_eq!(process_input(key(Key::Char('s')), &mut game), Ok(()));
    assert_eq!(pairs(&game.current_preset()), Shape::R_PENTOMINO.to_vec());
}

#[test]
fn process_input_toggles_the_square_under_a_click() {
    let mut game = game();
    let click = UserEvent::LeftClick { row: 6, column: 17, modifiers: Modifiers::Plain };
    assert_eq!(process_input(click, &mut game), Ok(()));
    assert_eq!(live(&game), vec![(1, 1)]);
    assert_eq!(process_input(click, &mut game), Ok(()));
    assert_eq!(live(&game), vec![]);
}

#[test]
fn process_input_stamps_the_picked_shape_under_an_alt_click() {
    let mut game = game();
    game.cycle_presets();
    let click = UserEvent::LeftClick { row: 10, column: 24, modifiers: Modifiers::Alt };
    assert_eq!(process_input(click, &mut game), Ok(()));
    assert_eq!(live(&game), vec![(0, 1), (0, 5), (1, 0), (1, 1), (5, 1)]);
}

#[test]
fn process_input_ignores_clicks_off_the_board() {
    let mut game = game();
    for modifiers in [Modifiers::Plain, Modifiers::Alt] {
        for (row, column) in [(4, 17), (11, 17), (6, 13), (6, 26)] {
            assert_eq!(process_input(UserEvent::LeftClick { row, column, modifiers }, &mut game), Ok(()));
        }
    }
    assert_eq!(live(&game), vec![]);
}

#[test]
fn process_input_ignores_everything_else() {
    let mut game = game();
    game.game_board.flip_cell(Position { row: 0, column: 0 });
    assert_eq!(process_input(UserEvent::Other, &mut game), Ok(()));
    assert_eq!(process_input(key(Key::Char('c')), &mut game), Ok(()));
    assert_eq!(process_input(key(Key::Char('r')), &mut game), Ok(()));
    assert_eq!(process_input(key(Key::Other), &mut game), Ok(()));
    assert_eq!(live(&game), vec![(0, 0)]);
    assert!(game.paused);
    assert_eq!(pairs(&game.current_preset()), Shape::ACORN.to_vec());
}
