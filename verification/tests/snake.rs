use snake_game::snake::{Direction, Snake};

fn segments(snake: &Snake) -> Vec<(i32, i32)> {
    let mut cells = Vec::new();
    let mut i = 0;
    while let Some(cell) = snake.segment(i) {
        cells.push(cell);
        i += 1;
    }
    cells
}

const ALL_DIRECTIONS: [Direction; 4] =
    [Direction::Up, Direction::Down, Direction::Left, Direction::Right];

#[test]
fn opposite_pairs_up_with_down_and_left_with_right() {
    assert_eq!(Direction::Up.opposite(), Direction::Down);
    assert_eq!(Direction::Down.opposite(), Direction::Up);
    assert_eq!(Direction::Left.opposite(), Direction::Right);
    assert_eq!(Direction::Right.opposite(), Direction::Left);
}

#[test]
fn opposite_twice_is_identity() {
    for d in ALL_DIRECTIONS {
        assert_eq!(d.opposite().opposite(), d);
        assert_ne!(d.opposite(), d);
    }
}

#[test]
fn new_snake_has_three_segments_heading_right() {
    let snake = Snake::new(2, 2);
    assert_eq!(snake.len(), 3);
    assert_eq!(segments(&snake), vec![(2, 2), (1, 2), (0, 2)]);
    assert_eq!(snake.head_position(), (2, 2));
    assert_eq!(snake.head_direction(), Direction::Right);
    assert_eq!(snake.tail(), None);
    assert!(!snake.is_growing());
    assert_eq!(snake.segment(3), None);
}

#[test]
fn new_snake_at_another_anchor() {
    let snake = Snake::new(10, -4);
    assert_eq!(segments(&snake), vec![(10, -4), (9, -4), (8, -4)]);
}

#[test]
fn next_head_is_one_cell_away_in_each_direction() {
    let snake = Snake::new(5, 7);
    assert_eq!(snake.next_head(Some(Direction::Up)), (5, 6));
    assert_eq!(snake.next_head(Some(Direction::Down)), (5, 8));
    assert_eq!(snake.next_head(Some(Direction::Left)), (4, 7));
    assert_eq!(snake.next_head(Some(Direction::Right)), (6, 7));
}

#[test]
fn next_head_without_direction_follows_heading() {
    let mut snake = Snake::new(5, 7);
    assert_eq!(snake.next_head(None), (6, 7));
    snake.move_forward(Some(Direction::Down));
    assert_eq!(snake.next_head(None), (5, 9));
}

#[test]
fn next_head_leaves_snake_alone() {
    let snake = Snake::new(5, 7);
    let before = segments(&snake);
    let _ = snake.next_head(Some(Direction::Up));
    let _ = snake.next_head(None);
    assert_eq!(segments(&snake), before);
    assert_eq!(snake.head_direction(), Direction::Right);
}

#[test]
fn move_forward_pushes_head_and_drops_tail() {
    let mut snake = Snake::new(2, 2);
    snake.move_forward(None);
    assert_eq!(segments(&snake), vec![(3, 2), (2, 2), (1, 2)]);
    assert_eq!(snake.tail(), Some((0, 2)));
    assert_eq!(snake.head_direction(), Direction::Right);
}

#[test]
fn move_forward_takes_given_direction_as_heading() {
    let mut snake = Snake::new(2, 2);
    snake.move_forward(Some(Direction::Down));
    assert_eq!(snake.head_direction(), Direction::Down);
    assert_eq!(segments(&snake), vec![(2, 3), (2, 2), (1, 2)]);
    snake.move_forward(None);
    assert_eq!(segments(&snake), vec![(2, 4), (2, 3), (2, 2)]);
}

#[test]
fn move_forward_does_not_reject_reversal() {
    let mut snake = Snake::new(2, 2);
    snake.move_forward(Some(Direction::Left));
    assert_eq!(snake.head_direction(), Direction::Left);
    assert_eq!(segments(&snake), vec![(1, 2), (2, 2), (1, 2)]);
}

#[test]
fn move_without_growth_keeps_length() {
    for d in ALL_DIRECTIONS {
        let mut snake = Snake::new(5, 5);
        let before = snake.len();
        snake.move_forward(Some(d));
        assert_eq!(snake.len(), before);
    }
}

#[test]
fn move_after_restore_tail_grows_by_one() {
    let mut snake = Snake::new(2, 2);
    snake.move_forward(None);
    snake.restore_tail();
    assert!(snake.is_growing());
    assert_eq!(snake.len(), 3);
    snake.move_forward(None);
    assert_eq!(snake.len(), 4);
    assert_eq!(segments(&snake), vec![(4, 2), (3, 2), (2, 2), (1, 2)]);
    assert!(!snake.is_growing());
    assert_eq!(snake.tail(), Some((0, 2)));
}

#[test]
fn growth_is_used_up_by_one_move() {
    let mut snake = Snake::new(2, 2);
    snake.restore_tail();
    snake.move_forward(None);
    assert_eq!(snake.len(), 4);
    snake.move_forward(None);
    assert_eq!(snake.len(), 4);
    assert_eq!(segments(&snake), vec![(4, 2), (3, 2), (2, 2), (1, 2)]);
    assert_eq!(snake.tail(), Some((0, 2)));
}

#[test]
fn restore_tail_twice_grows_once() {
    let mut snake = Snake::new(2, 2);
    snake.restore_tail();
    snake.restore_tail();
    snake.move_forward(None);
    snake.move_forward(None);
    assert_eq!(snake.len(), 4);
}

#[test]
fn head_after_move_is_next_head_computed_before() {
    let mut snake = Snake::new(4, 4);
    let turns = [
        None,
        Some(Direction::Down),
        None,
        Some(Direction::Left),
        Some(Direction::Up),
        None,
        Some(Direction::Right),
    ];
    for turn in turns {
        let expected = snake.next_head(turn);
        snake.move_forward(turn);
        assert_eq!(snake.head_position(), expected);
    }
    assert_eq!(snake.head_position(), (5, 4));
}

#[test]
fn overlap_tail_is_true_on_the_body_and_false_off_it() {
    let mut snake = Snake::new(2, 2);
    snake.restore_tail();
    snake.move_forward(Some(Direction::Down));
    let cells = segments(&snake);
    assert_eq!(cells, vec![(2, 3), (2, 2), (1, 2), (0, 2)]);
    for x in -2..6 {
        for y in -2..6 {
            assert_eq!(snake.overlap_tail(x, y), cells.contains(&(x, y)));
        }
    }
}

#[test]
fn overlap_tail_counts_the_last_segment() {
    let snake = Snake::new(2, 2);
    assert!(snake.overlap_tail(0, 2));
}

#[test]
fn overlap_tail_is_false_on_a_cell_the_tail_has_left() {
    let mut snake = Snake::new(2, 2);
    snake.move_forward(None);
    assert_eq!(snake.tail(), Some((0, 2)));
    assert!(!snake.overlap_tail(0, 2));
    assert!(snake.overlap_tail(1, 2));
}
