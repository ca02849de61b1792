//! Where food can go: the free cells of a board, listed row by row.

use crate::snake::{cell_of, Snake, SnakeModel};
use vstd::prelude::*;

verus! {

/// Whether `cell` lies strictly inside the one-cell border of a board of
/// `width` by `height` cells.
pub open spec fn is_interior(width: int, height: int, cell: (int, int)) -> bool {
    0 < cell.0 < width - 1 && 0 < cell.1 < height - 1
}

/// Whether food may be put on `cell`: it is inside the border and no body
/// segment lies on it.
pub open spec fn is_free(snake: SnakeModel, width: int, height: int, cell: (int, int)) -> bool {
    is_interior(width, height, cell) && !snake.occupies(cell)
}

/// The unoccupied cells of row `y` in columns `1` up to but not including
/// `x`, from left to right.
pub open spec fn free_in_row(snake: SnakeModel, y: int, x: int) -> Seq<(int, int)>
    decreases x,
{
    if x <= 1 {
        Seq::empty()
    } else {
        let before = free_in_row(snake, y, x - 1);
        if snake.occupies((x - 1, y)) {
            before
        } else {
            before.push((x - 1, y))
        }
    }
}

/// The unoccupied interior cells of rows `1` up to but not including `y`,
/// row by row from the top.
pub open spec fn free_in_rows(snake: SnakeModel, width: int, y: int) -> Seq<(int, int)>
    decreases y,
{
    if y <= 1 {
        Seq::empty()
    } else {
        free_in_rows(snake, width, y - 1) + free_in_row(snake, y - 1, width - 1)
    }
}

/// Every free cell of the board, row by row from the top and from left to
/// right within a row.
pub open spec fn free_cells(snake: SnakeModel, width: int, height: int) -> Seq<(int, int)> {
    free_in_rows(snake, width, height - 1)
}

/// Whether `a` comes before `b` in reading order: in a row further up, or
/// in the same row further left.
pub open spec fn reads_before(a: (int, int), b: (int, int)) -> bool {
    a.1 < b.1 || (a.1 == b.1 && a.0 < b.0)
}

/// Whether `a` is an initial stretch of `b`.
spec fn starts(a: Seq<(int, int)>, b: Seq<(int, int)>) -> bool {
    a.len() <= b.len() && forall|i: int| 0 <= i < a.len() ==> a[i] == b[i]
}

proof fn lemma_row_bounds(snake: SnakeModel, y: int, x: int)
    ensures
        x <= 1 ==> free_in_row(snake, y, x).len() == 0,
        x >= 1 ==> free_in_row(snake, y, x).len() <= x - 1,
        forall|i: int|
            0 <= i < free_in_row(snake, y, x).len() ==> {
                let c = #[trigger] free_in_row(snake, y, x)[i];
                c.1 == y && 1 <= c.0 < x && !snake.occupies(c)
            },
    decreases x,
{
    if x > 1 {
        lemma_row_bounds(snake, y, x - 1);
    }
}

proof fn lemma_row_grows(snake: SnakeModel, y: int, x: int, x2: int)
    requires
        x <= x2,
    ensures
        starts(free_in_row(snake, y, x), free_in_row(snake, y, x2)),
    decreases x2 - x,
{
    if x < x2 {
        lemma_row_grows(snake, y, x, x2 - 1);
        lemma_row_bounds(snake, y, x);
    }
}

proof fn lemma_rows_bounds(snake: SnakeModel, width: int, y: int)
    requires
        width >= 2,
    ensures
        y <= 1 ==> free_in_rows(snake, width, y).len() == 0,
        y >= 1 ==> free_in_rows(snake, width, y).len() <= (y - 1) * (width - 2),
        forall|i: int|
            0 <= i < free_in_rows(snake, width, y).len() ==> {
                let c = #[trigger] free_in_rows(snake, width, y)[i];
                1 <= c.1 < y && 1 <= c.0 < width - 1 && !snake.occupies(c)
            },
    decreases y,
{
    if y > 1 {
        lemma_rows_bounds(snake, width, y - 1);
        lemma_row_bounds(snake, y - 1, width - 1);
        assert((y - 2) * (width - 2) + (width - 2) == (y - 1) * (width - 2))
            by (nonlinear_arith);
    } else {
        assert(y == 1 ==> (y - 1) * (width - 2) == 0) by (nonlinear_arith);
    }
}

proof fn lemma_rows_grow(snake: SnakeModel, width: int, y: int, y2: int)
    requires
        y <= y2,
    ensures
        starts(free_in_rows(snake, width, y), free_in_rows(snake, width, y2)),
    decreases y2 - y,
{
    if y < y2 {
        lemma_rows_grow(snake, width, y, y2 - 1);
    }
}

/// What has been listed before the scan reaches column `x` of row `y` is an
/// initial stretch of the whole list.
proof fn lemma_scan_prefix(snake: SnakeModel, width: int, height: int, y: int, x: int)
    requires
        1 <= y < height - 1,
        x <= width - 1,
    ensures
        starts(
            free_in_rows(snake, width, y) + free_in_row(snake, y, x),
            free_cells(snake, width, height),
        ),
{
    lemma_row_grows(snake, y, x, width - 1);
    lemma_rows_grow(snake, width, y + 1, height - 1);
    let upto = free_in_rows(snake, width, y) + free_in_row(snake, y, x);
    let next = free_in_rows(snake, width, y + 1);
    assert(next == free_in_rows(snake, width, y) + free_in_row(snake, y, width - 1));
    assert(starts(upto, next));
}

/// A board narrower or lower than three cells has no interior.
pub proof fn no_free_cells_on_small_board(snake: SnakeModel, width: int, height: int)
    requires
        width < 3 || height < 3,
    ensures
        free_cells(snake, width, height).len() == 0,
    decreases height,
{
    if height >= 3 {
        no_free_cells_on_small_board(snake, width, height - 1);
        lemma_row_bounds(snake, height - 2, width - 1);
    }
}

/// Every listed cell is free.
pub proof fn listed_cells_are_free(snake: SnakeModel, width: int, height: int)
    ensures
        forall|i: int|
            0 <= i < free_cells(snake, width, height).len() ==> is_free(
                snake,
                width,
                height,
                #[trigger] free_cells(snake, width, height)[i],
            ),
{
    if width < 3 || height < 3 {
        no_free_cells_on_small_board(snake, width, height);
    } else {
        lemma_rows_bounds(snake, width, height - 1);
    }
}

proof fn lemma_row_ordered(snake: SnakeModel, y: int, x: int)
    ensures
        forall|i: int, j: int|
            0 <= i < j < free_in_row(snake, y, x).len() ==> reads_before(
                free_in_row(snake, y, x)[i],
                free_in_row(snake, y, x)[j],
            ),
    decreases x,
{
    if x > 1 {
        lemma_row_ordered(snake, y, x - 1);
        lemma_row_bounds(snake, y, x - 1);
    }
}

proof fn lemma_rows_ordered(snake: SnakeModel, width: int, y: int)
    requires
        width >= 2,
    ensures
        forall|i: int, j: int|
            0 <= i < j < free_in_rows(snake, width, y).len() ==> reads_before(
                free_in_rows(snake, width, y)[i],
                free_in_rows(snake, width, y)[j],
            ),
    decreases y,
{
    if y > 1 {
        let above = free_in_rows(snake, width, y - 1);
        let row = free_in_row(snake, y - 1, width - 1);
        lemma_rows_ordered(snake, width, y - 1);
        lemma_rows_bounds(snake, width, y - 1);
        lemma_row_ordered(snake, y - 1, width - 1);
        lemma_row_bounds(snake, y - 1, width - 1);
        assert forall|i: int, j: int| 0 <= i < j < (above + row).len() implies reads_before(
            (above + row)[i],
            (above + row)[j],
        ) by {
            if i >= above.len() {
                assert((above + row)[i] == row[i - above.len()]);
            }
            if j >= above.len() {
                assert((above + row)[j] == row[j - above.len()]);
            }
        }
    }
}

/// The list runs in reading order: from the top row down, and from left to
/// right within a row.
pub proof fn listed_cells_are_in_reading_order(snake: SnakeModel, width: int, height: int)
    ensures
        forall|i: int, j: int|
            0 <= i < j < free_cells(snake, width, height).len() ==> reads_before(
                free_cells(snake, width, height)[i],
                free_cells(snake, width, height)[j],
            ),
{
    if width < 3 || height < 3 {
        no_free_cells_on_small_board(snake, width, height);
    } else {
        lemma_rows_ordered(snake, width, height - 1);
    }
}

/// No cell is listed twice.
pub proof fn listed_cells_are_distinct(snake: SnakeModel, width: int, height: int)
    ensures
        free_cells(snake, width, height).no_duplicates(),
{
    let cells = free_cells(snake, width, height);
    listed_cells_are_in_reading_order(snake, width, height);
    assert forall|i: int, j: int| 0 <= i < cells.len() && 0 <= j < cells.len() && i != j implies cells[i]
        != cells[j] by {
        if i < j {
            assert(reads_before(cells[i], cells[j]));
        } else {
            assert(reads_before(cells[j], cells[i]));
        }
    }
}

/// Every free cell is listed.
pub proof fn free_cell_is_listed(snake: SnakeModel, width: int, height: int, cell: (int, int))
    requires
        is_free(snake, width, height, cell),
    ensures
        free_cells(snake, width, height).contains(cell),
{
    let (x, y) = cell;
    let row = free_in_row(snake, y, x + 1);
    let above = free_in_rows(snake, width, y);
    lemma_scan_prefix(snake, width, height, y, x + 1);
    assert(row.last() == cell);
    let at = above.len() + row.len() - 1;
    assert((above + row)[at] == cell);
    assert(free_cells(snake, width, height)[at] == cell);
}

/// The number of free cells of the board.
pub fn count_free_cells(snake: &Snake, width: i32, height: i32) -> (n: u64)
    ensures
        n == free_cells(snake@, width as int, height as int).len(),
{
    if width < 3 || height < 3 {
        proof {
            no_free_cells_on_small_board(snake@, width as int, height as int);
        }
        return 0;
    }
    let mut n: u64 = 0;
    let mut y: i32 = 1;
    while y < height - 1
        invariant
            width >= 3,
            height >= 3,
            1 <= y <= height - 1,
            n == free_in_rows(snake@, width as int, y as int).len(),
        decreases height - y,
    {
        let ghost above = n;
        let mut x: i32 = 1;
        while x < width - 1
            invariant
                width >= 3,
                1 <= x <= width - 1,
                1 <= y < height - 1,
                above == free_in_rows(snake@, width as int, y as int).len(),
                n == above + free_in_row(snake@, y as int, x as int).len(),
            decreases width - x,
        {
            proof {
                lemma_rows_bounds(snake@, width as int, y as int);
                lemma_row_bounds(snake@, y as int, x as int);
                assert((y - 1) * (width - 2) <= 0x8000_0000 * 0x8000_0000) by (nonlinear_arith)
                    requires
                        0 <= y - 1 <= 0x8000_0000,
                        0 <= width - 2 <= 0x8000_0000,
                ;
            }
            if !snake.overlap_tail(x, y) {
                n = n + 1;
            }
            x = x + 1;
        }
        y = y + 1;
    }
    n
}

/// The free cell at place `k` of the list, if the list is that long.
pub fn nth_free_cell(snake: &Snake, width: i32, height: i32, k: u64) -> (found: Option<
    (i32, i32),
>)
    ensures
        k < free_cells(snake@, width as int, height as int).len() ==> found.is_some() && cell_of(
            found.unwrap(),
        ) == free_cells(snake@, width as int, height as int)[k as int],
        k >= free_cells(snake@, width as int, height as int).len() ==> found.is_none(),
{
    if width < 3 || height < 3 {
        proof {
            no_free_cells_on_small_board(snake@, width as int, height as int);
        }
        return None;
    }
    let mut n: u64 = 0;
    let mut y: i32 = 1;
    while y < height - 1
        invariant
            width >= 3,
            height >= 3,
            1 <= y <= height - 1,
            n == free_in_rows(snake@, width as int, y as int).len(),
            n <= k,
        decreases height - y,
    {
        let ghost above = free_in_rows(snake@, width as int, y as int);
        let mut x: i32 = 1;
        while x < width - 1
            invariant
                width >= 3,
                height >= 3,
                1 <= x <= width - 1,
                1 <= y < height - 1,
                above == free_in_rows(snake@, width as int, y as int),
                n == above.len() + free_in_row(snake@, y as int, x as int).len(),
                n <= k,
            decreases width - x,
        {
            if !snake.overlap_tail(x, y) {
                if n == k {
                    proof {
                        lemma_scan_prefix(
                            snake@,
                            width as int,
                            height as int,
                            y as int,
                            x as int + 1,
                        );
                        let row = free_in_row(snake@, y as int, x as int + 1);
                        assert(row.last() == (x as int, y as int));
                        assert((above + row)[k as int] == (x as int, y as int));
                    }
                    return Some((x, y));
                }
                n = n + 1;
            }
            x = x + 1;
        }
        y = y + 1;
    }
    None
}

} // verus!
