use game_of_life::{Board, Cell, ControlToggle, Glyph, Picture, Rect, ScreenPlan, Shape};

fn area(width: u16, height: u16) -> Rect {
    Rect { x: 3, y: 4, width, height }
}

fn squares(picture: &Picture, y: u16) -> Vec<Option<Glyph>> {
    let end = picture.margin() + picture.draw_width();
    (0..end + 2).map(|x| picture.glyph(x, y)).collect()
}

#[test]
fn plan_gives_the_lengths() {
    let board = Board::new(6, 8, None).unwrap();
    let plan = ScreenPlan::new(area(40, 20), &board).unwrap();
    assert_eq!(plan.game_row_height, 18);
    assert_eq!(plan.board_margin_width, 14);
    assert_eq!(plan.board_area_width, 14);
    assert_eq!(plan.controls_margin_width, 1);
}

#[test]
fn plan_has_no_margin_when_the_board_fills_the_terminal() {
    let board = Board::new(30, 8, None).unwrap();
    let plan = ScreenPlan::new(area(60, 20), &board).unwrap();
    assert_eq!(plan.board_margin_width, 0);
    assert_eq!(plan.board_area_width, 62);
    assert_eq!(plan.controls_margin_width, 11);
    let wider = ScreenPlan::new(area(50, 20), &board).unwrap();
    assert_eq!(wider.board_margin_width, 0);
    assert_eq!(wider.controls_margin_width, 6);
}

#[test]
fn plan_needs_room_for_the_controls() {
    let board = Board::new(6, 8, None).unwrap();
    assert_eq!(ScreenPlan::new(area(37, 20), &board), None);
    assert!(ScreenPlan::new(area(38, 20), &board).is_some());
    assert_eq!(ScreenPlan::new(area(38, 20), &board).unwrap().controls_margin_width, 0);
}

#[test]
fn plan_needs_lengths_that_fit() {
    let tall = Board::new(2, 65526, None).unwrap();
    assert_eq!(ScreenPlan::new(area(40, 20), &tall), None);
    let tallest = Board::new(2, 65525, None).unwrap();
    assert_eq!(ScreenPlan::new(area(40, 20), &tallest).unwrap().game_row_height, 65535);
    let wide = Board::new(32767, 1, None).unwrap();
    assert_eq!(ScreenPlan::new(area(40, 20), &wide), None);
    let widest = Board::new(32766, 1, None).unwrap();
    assert_eq!(ScreenPlan::new(area(40, 20), &widest).unwrap().board_area_width, 65534);
}

#[test]
fn plan_constants() {
    assert_eq!(ScreenPlan::GAME_ROW_PADDING, 10);
    assert_eq!(ScreenPlan::CONTROLS_ROW_HEIGHT, 10);
    assert_eq!(ScreenPlan::CONTROLS_WIDTH, 38);
}

#[test]
fn board_picture_shows_squares_and_bars_in_turn() {
    let board = Board::seeded(3, 2, Some(vec![(0, 1), (1, 2)]), None).unwrap();
    let picture = board.picture(area(40, 20));
    assert_eq!(picture.margin(), 0);
    assert_eq!(picture.draw_width(), 6);
    assert_eq!(picture.draw_height(), 2);
    assert_eq!(
        squares(&picture, 0),
        vec![
            Some(Glyph::Square(Cell::Dead)),
            Some(Glyph::Bar),
            Some(Glyph::Square(Cell::Alive)),
            Some(Glyph::Bar),
            Some(Glyph::Square(Cell::Dead)),
            Some(Glyph::Bar),
            None,
            None,
        ]
    );
    assert_eq!(picture.glyph(4, 1), Some(Glyph::Square(Cell::Alive)));
    assert_eq!(picture.glyph(0, 2), None);
}

#[test]
fn board_picture_is_cut_off_by_a_small_area() {
    let board = Board::uniform(10, 10, Cell::Alive).unwrap();
    let picture = board.picture(area(7, 4));
    assert_eq!(picture.draw_width(), 7);
    assert_eq!(picture.draw_height(), 4);
    assert_eq!(picture.glyph(6, 3), Some(Glyph::Square(Cell::Alive)));
    assert_eq!(picture.glyph(7, 3), None);
    assert_eq!(picture.glyph(6, 4), None);
    let nothing = board.picture(area(0, 0));
    assert_eq!(nothing.draw_width(), 0);
    assert_eq!(nothing.glyph(0, 0), None);
}

#[test]
fn board_picture_of_a_wide_board_does_not_overflow() {
    let board = Board::new(40000, 1, None).unwrap();
    let picture = board.picture(area(u16::MAX, 5));
    assert_eq!(picture.draw_width(), u16::MAX);
    assert_eq!(picture.draw_height(), 1);
    assert_eq!(picture.glyph(65534, 0), Some(Glyph::Square(Cell::Dead)));
}

#[test]
fn shape_picture_places_the_pattern_on_the_canvas() {
    let shape = Shape::new(Shape::GLIDER.to_vec(), None);
    let picture = shape.picture(area(20, 8)).unwrap();
    assert_eq!(picture.draw_width(), 10);
    assert_eq!(picture.margin(), 5);
    assert_eq!(picture.draw_height(), 8);
    assert_eq!(picture.glyph(4, 2), None);
    assert_eq!(picture.glyph(15, 2), None);
    assert_eq!(picture.glyph(5, 2), Some(Glyph::Bar));
    assert_eq!(picture.glyph(6, 2), Some(Glyph::Square(Cell::Dead)));
    assert_eq!(picture.glyph(8, 2), Some(Glyph::Square(Cell::Dead)));
    assert_eq!(picture.glyph(10, 2), Some(Glyph::Square(Cell::Dead)));
    assert_eq!(picture.glyph(12, 2), Some(Glyph::Square(Cell::Alive)));
    assert_eq!(picture.glyph(8, 3), Some(Glyph::Square(Cell::Alive)));
    assert_eq!(picture.glyph(12, 3), Some(Glyph::Square(Cell::Alive)));
    assert_eq!(picture.glyph(10, 4), Some(Glyph::Square(Cell::Alive)));
    assert_eq!(picture.glyph(12, 4), Some(Glyph::Square(Cell::Alive)));
    assert_eq!(picture.glyph(10, 3), Some(Glyph::Square(Cell::Dead)));
    assert_eq!(picture.glyph(10, 0), Some(Glyph::Square(Cell::Dead)));
    assert_eq!(picture.glyph(10, 8), None);
}

#[test]
fn shape_picture_in_a_narrow_area_draws_the_whole_width() {
    let shape = Shape::new(Shape::GLIDER.to_vec(), None);
    let picture = shape.picture(area(5, 3)).unwrap();
    assert_eq!(picture.draw_width(), 5);
    assert_eq!(picture.margin(), 2);
    assert_eq!(picture.draw_height(), 3);
    assert_eq!(picture.glyph(2, 2), Some(Glyph::Square(Cell::Dead)));
    assert_eq!(picture.glyph(6, 2), Some(Glyph::Square(Cell::Dead)));
    assert_eq!(picture.glyph(7, 2), None);
}

#[test]
fn shape_picture_needs_a_canvas_that_holds_the_pattern() {
    let thunderbird = Shape::new(Shape::THUNDERBIRD.to_vec(), None);
    assert!(thunderbird.picture(area(20, 6)).is_none());
    assert!(thunderbird.picture(area(20, 7)).is_some());
    let acorn = Shape::new(Shape::ACORN.to_vec(), None);
    assert!(acorn.picture(area(0, 0)).is_some());
    let far = Shape::new(vec![(0, 8)], None);
    assert!(far.picture(area(9, 6)).is_none());
    assert!(far.picture(area(10, 6)).is_some());
}

#[test]
fn shape_picture_of_an_empty_pattern_is_dead() {
    let shape = Shape::new(vec![], None);
    let picture = shape.picture(area(12, 6)).unwrap();
    assert_eq!(picture.draw_width(), 6);
    assert_eq!(picture.margin(), 3);
    for y in 0..6 {
        for x in 3..9 {
            let expected = if x % 2 == 0 { Glyph::Square(Cell::Dead) } else { Glyph::Bar };
            assert_eq!(picture.glyph(x, y), Some(expected));
        }
    }
}

#[test]
fn preview_constants() {
    assert_eq!(Shape::PREVIEW_HEIGHT, 6);
    assert_eq!(Shape::PREVIEW_WIDTH, 9);
    assert_eq!(Shape::PREVIEW_TOP, 2);
    assert_eq!(Shape::PREVIEW_LEFT, 1);
}

#[test]
fn play_sign_is_alive_on_dead_ground() {
    let picture = ControlToggle::Play.picture(area(30, 9)).unwrap();
    assert_eq!(picture.margin(), 3);
    assert_eq!(picture.draw_width(), 20);
    assert_eq!(picture.draw_height(), 7);
    assert_eq!(picture.glyph(2, 0), None);
    assert_eq!(picture.glyph(3, 0), Some(Glyph::Bar));
    assert_eq!(picture.glyph(4, 0), Some(Glyph::Square(Cell::Alive)));
    assert_eq!(picture.glyph(6, 0), Some(Glyph::Square(Cell::Alive)));
    assert_eq!(picture.glyph(6, 1), Some(Glyph::Square(Cell::Dead)));
    assert_eq!(picture.glyph(14, 0), Some(Glyph::Square(Cell::Dead)));
    assert_eq!(picture.glyph(16, 1), Some(Glyph::Square(Cell::Alive)));
    assert_eq!(picture.glyph(20, 5), Some(Glyph::Square(Cell::Alive)));
    assert_eq!(picture.glyph(22, 5), Some(Glyph::Square(Cell::Dead)));
    assert_eq!(picture.glyph(22, 6), Some(Glyph::Square(Cell::Dead)));
    assert_eq!(picture.glyph(23, 6), None);
    assert_eq!(picture.glyph(4, 7), None);
}

#[test]
fn pause_sign_is_dead_on_live_ground() {
    let play = ControlToggle::Play.picture(area(30, 9)).unwrap();
    let pause = ControlToggle::Pause.picture(area(30, 9)).unwrap();
    for y in 0..8 {
        for x in 0..32 {
            let expected = match play.glyph(x, y) {
                Some(Glyph::Square(Cell::Alive)) => Some(Glyph::Square(Cell::Dead)),
                Some(Glyph::Square(Cell::Dead)) => Some(Glyph::Square(Cell::Alive)),
                other => other,
            };
            assert_eq!(pause.glyph(x, y), expected);
        }
    }
}

#[test]
fn sign_holds_every_square_of_its_table() {
    let picture = ControlToggle::Play.picture(area(20, 7)).unwrap();
    assert_eq!(picture.margin(), 0);
    let mut alive = Vec::new();
    for y in 0..7u16 {
        for x in (0..20u16).step_by(2) {
            if picture.glyph(x, y) == Some(Glyph::Square(Cell::Alive)) {
                alive.push((y as usize, (x / 2) as usize));
            }
        }
    }
    let mut expected = ControlToggle::PLAYPAUSE.to_vec();
    expected.sort();
    assert_eq!(alive, expected);
}

#[test]
fn sign_in_a_small_area_is_cut_off() {
    let picture = ControlToggle::Play.picture(area(6, 3)).unwrap();
    assert_eq!(picture.margin(), 0);
    assert_eq!(picture.draw_width(), 6);
    assert_eq!(picture.draw_height(), 3);
    assert_eq!(picture.glyph(5, 2), Some(Glyph::Bar));
    assert_eq!(picture.glyph(6, 2), None);
    assert_eq!(picture.glyph(0, 3), None);
    let ten = ControlToggle::Play.picture(area(10, 7)).unwrap();
    assert_eq!(ten.margin(), 0);
    assert_eq!(ten.draw_width(), 10);
}

#[test]
fn sign_cannot_be_placed_where_its_margin_would_be_negative() {
    for width in [7, 8, 9, 21, 22, 23] {
        assert!(ControlToggle::Play.picture(area(width, 9)).is_none(), "width {width}");
        assert!(ControlToggle::Pause.picture(area(width, 9)).is_none(), "width {width}");
    }
    for width in [0, 5, 6, 10, 15, 20, 24, 25, 100] {
        assert!(ControlToggle::Play.picture(area(width, 9)).is_some(), "width {width}");
    }
    assert_eq!(ControlToggle::Play.picture(area(24, 9)).unwrap().margin(), 0);
    assert_eq!(ControlToggle::Play.picture(area(6, 9)).unwrap().margin(), 0);
}
