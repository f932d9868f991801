use game_of_life::{Position, Shape};

fn pairs(cells: &[Position]) -> Vec<(usize, usize)> {
    cells.iter().map(|position| (position.row, position.column)).collect()
}

#[test]
fn presets_are_the_known_patterns() {
    assert_eq!(Shape::GLIDER, [(0, 2), (1, 0), (1, 2), (2, 1), (2, 2)]);
    assert_eq!(Shape::ACORN, [(0, 1), (1, 3), (2, 0), (2, 1), (2, 4), (2, 5), (2, 6)]);
    assert_eq!(Shape::R_PENTOMINO, [(0, 1), (0, 2), (1, 0), (1, 1), (2, 1)]);
    assert_eq!(Shape::PI_HEPTOMINO, [(0, 0), (0, 1), (0, 2), (1, 0), (1, 2), (2, 0), (2, 2)]);
    assert_eq!(Shape::B_HEPTOMINO, [(0, 0), (0, 2), (0, 3), (1, 0), (1, 1), (1, 2), (2, 1)]);
    assert_eq!(Shape::THUNDERBIRD, [(0, 0), (0, 1), (0, 2), (2, 1), (3, 1), (4, 1)]);
}

#[test]
fn new_keeps_the_order_of_the_squares() {
    let shape = Shape::new(vec![(3, 1), (0, 2), (3, 1)], None);
    assert_eq!(pairs(&shape.pattern), vec![(3, 1), (0, 2), (3, 1)]);
    assert_eq!(shape.offset, None);
    let placed = Shape::new(vec![], Some(Position { row: 1, column: 2 }));
    assert!(placed.pattern.is_empty());
    assert_eq!(placed.offset, Some(Position { row: 1, column: 2 }));
}

#[test]
fn get_cells_without_offset_hands_the_pattern_back() {
    let shape = Shape::new(vec![(9, 9), (0, 2)], None);
    assert_eq!(pairs(&shape.get_cells(3, 3)), vec![(9, 9), (0, 2)]);
    let same = Shape::new(vec![(9, 9), (0, 2)], None);
    assert_eq!(pairs(&same.get_cells(0, 0)), vec![(9, 9), (0, 2)]);
}

#[test]
fn get_cells_with_offset_moves_and_wraps() {
    let shape = Shape::new(Shape::GLIDER.to_vec(), Some(Position { row: 5, column: 5 }));
    assert_eq!(pairs(&shape.get_cells(6, 6)), vec![(5, 1), (0, 5), (0, 1), (1, 0), (1, 1)]);
}

#[test]
fn get_cells_wraps_rows_by_height_and_columns_by_width() {
    let shape = Shape::new(vec![(2, 4)], Some(Position { row: 2, column: 4 }));
    assert_eq!(pairs(&shape.get_cells(5, 3)), vec![(1, 3)]);
}

#[test]
fn get_cells_does_not_overflow() {
    let shape = Shape::new(vec![(usize::MAX, usize::MAX)], Some(Position { row: usize::MAX, column: 1 }));
    let rows = ((usize::MAX % 7) * 2) % 7;
    let columns = ((usize::MAX % 10) + 1) % 10;
    assert_eq!(pairs(&shape.get_cells(10, 7)), vec![(rows, columns)]);
}

#[test]
fn get_cells_twice_gives_the_same_squares() {
    let shape = Shape::new(Shape::ACORN.to_vec(), Some(Position { row: 30, column: 62 }));
    let first = shape.clone().get_cells(64, 32);
    let second = shape.get_cells(64, 32);
    assert_eq!(first, second);
    assert_eq!(pairs(&first), vec![(30, 63), (31, 1), (0, 62), (0, 63), (0, 2), (0, 3), (0, 4)]);
}

#[test]
fn preset_finds_every_name() {
    assert_eq!(Shape::preset("acorn"), Some(Shape::ACORN.to_vec()));
    assert_eq!(Shape::preset("glider"), Some(Shape::GLIDER.to_vec()));
    assert_eq!(Shape::preset("rpentomino"), Some(Shape::R_PENTOMINO.to_vec()));
    assert_eq!(Shape::preset("thunderbird"), Some(Shape::THUNDERBIRD.to_vec()));
    assert_eq!(Shape::preset("piheptomino"), Some(Shape::PI_HEPTOMINO.to_vec()));
    assert_eq!(Shape::preset("bheptomino"), Some(Shape::B_HEPTOMINO.to_vec()));
}

#[test]
fn preset_knows_no_other_name() {
    assert_eq!(Shape::preset(""), None);
    assert_eq!(Shape::preset("Glider"), None);
    assert_eq!(Shape::preset("glide"), None);
    assert_eq!(Shape::preset("gliders"), None);
    assert_eq!(Shape::preset("akorn"), None);
    assert_eq!(Shape::preset("blinker"), None);
}

#[test]
fn preset_at_follows_the_cycle() {
    let expected: [Vec<(usize, usize)>; 6] = [
        Shape::ACORN.to_vec(),
        Shape::GLIDER.to_vec(),
        Shape::R_PENTOMINO.to_vec(),
        Shape::PI_HEPTOMINO.to_vec(),
        Shape::B_HEPTOMINO.to_vec(),
        Shape::THUNDERBIRD.to_vec(),
    ];
    for (index, cells) in expected.iter().enumerate() {
        let shape = Shape::preset_at(index);
        assert_eq!(&pairs(&shape.pattern), cells);
        assert_eq!(shape.offset, None);
    }
}

#[test]
fn duplicate_copies_pattern_and_offset() {
    let shape = Shape::new(vec![(1, 2), (3, 4)], Some(Position { row: 5, column: 6 }));
    let copy = shape.duplicate();
    assert_eq!(copy.pattern, shape.pattern);
    assert_eq!(copy.offset, shape.offset);
}

#[test]
fn position_from_a_pair() {
    assert_eq!(Position::from((3, 7)), Position { row: 3, column: 7 });
}

#[test]
fn position_from_one_number() {
    assert_eq!(Position::from(4), Position { row: 4, column: 4 });
}
