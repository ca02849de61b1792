use snake_game::food::{count_free_cells, nth_free_cell};
use snake_game::snake::{Direction, Snake};

fn listed(snake: &Snake, width: i32, height: i32) -> Vec<(i32, i32)> {
    let mut cells = Vec::new();
    let mut k = 0;
    while let Some(cell) = nth_free_cell(snake, width, height, k) {
        cells.push(cell);
        k += 1;
    }
    cells
}

fn scanned(snake: &Snake, width: i32, height: i32) -> Vec<(i32, i32)> {
    let mut cells = Vec::new();
    for y in 1..height - 1 {
        for x in 1..width - 1 {
            if !snake.overlap_tail(x, y) {
                cells.push((x, y));
            }
        }
    }
    cells
}

#[test]
fn free_cells_of_a_small_board_in_row_order() {
    let snake = Snake::new(2, 2);
    assert_eq!(count_free_cells(&snake, 5, 5), 7);
    assert_eq!(
        listed(&snake, 5, 5),
        vec![(1, 1), (2, 1), (3, 1), (3, 2), (1, 3), (2, 3), (3, 3)]
    );
    assert_eq!(nth_free_cell(&snake, 5, 5, 3), Some((3, 2)));
    assert_eq!(nth_free_cell(&snake, 5, 5, 7), None);
    assert_eq!(nth_free_cell(&snake, 5, 5, u64::MAX), None);
}

#[test]
fn board_without_interior_has_no_free_cell() {
    let snake = Snake::new(2, 2);
    for (width, height) in [(2, 10), (10, 2), (0, 0), (-4, 7), (7, -4), (1, 1), (i32::MIN, 5)] {
        assert_eq!(count_free_cells(&snake, width, height), 0);
        assert_eq!(nth_free_cell(&snake, width, height, 0), None);
    }
}

#[test]
fn board_filled_by_the_snake_has_no_free_cell() {
    let mut snake = Snake::new(3, 1);
    assert_eq!(count_free_cells(&snake, 5, 3), 0);
    assert_eq!(nth_free_cell(&snake, 5, 3, 0), None);
    snake.move_forward(None);
    assert_eq!(count_free_cells(&snake, 5, 3), 1);
    assert_eq!(nth_free_cell(&snake, 5, 3, 0), Some((1, 1)));
}

#[test]
fn listed_cells_are_exactly_the_free_cells_each_once() {
    let mut snake = Snake::new(4, 3);
    let turns = [
        Some(Direction::Down),
        None,
        Some(Direction::Right),
        None,
        Some(Direction::Up),
        Some(Direction::Left),
    ];
    for turn in turns {
        snake.restore_tail();
        snake.move_forward(turn);
        for (width, height) in [(8, 7), (6, 9), (12, 5), (3, 3)] {
            let cells = listed(&snake, width, height);
            assert_eq!(cells, scanned(&snake, width, height));
            assert_eq!(count_free_cells(&snake, width, height), cells.len() as u64);
            for (i, cell) in cells.iter().enumerate() {
                assert!(!snake.overlap_tail(cell.0, cell.1));
                assert!(0 < cell.0 && cell.0 < width - 1 && 0 < cell.1 && cell.1 < height - 1);
                assert!(!cells[..i].contains(cell));
            }
        }
    }
}
