//! Cursor movement over the two-column board grid used to pick a move.
use vstd::prelude::*;

verus! {

/// Cursor position representing the off-board "bearing off" (scored) slot.
/// Positions 1-14 are on-board path steps; 0 is the pool; 15 is the scoring area.
pub const CURSOR_BEAR_OFF: usize = 15;

/// Direction for 2-D cursor navigation.
#[derive(Clone, Copy, Debug, PartialEq, Eq, Structural)]
pub enum NavDir {
    Up,
    Down,
    Left,
    Right,
}

/// The 2-D navigation grid: `nav_grid_spec(visual_row, col)` is a cursor position.
/// Visual row 0 = top of board (finish end); row 7 = bottom (entry end).
/// Col 0 = left (player private lane + virtual off-board slots).
/// Col 1 = right (shared middle column).
///
/// ```text
///   row 0: [step 13, step 12]
///   row 1: [step 14✦, step 11]
///   row 2: [BEAR_OFF, step 10]   ← H-gap: virtual slots on left
///   row 3: [pool (0), step 9]    ← H-gap
///   row 4: [step 1, step 8✦]
///   row 5: [step 2, step 7]
///   row 6: [step 3, step 6]
///   row 7: [step 4✦, step 5]
/// ```
pub open spec fn nav_grid_spec(row: int, col: int) -> int {
    if col == 1 {
        12 - row
    } else if row <= 2 {
        13 + row
    } else {
        row - 3
    }
}

/// The grid row of a cursor position (positions 0–15 are on the grid).
pub open spec fn grid_row(pos: int) -> int {
    if 5 <= pos <= 12 {
        12 - pos
    } else if 13 <= pos <= 15 {
        pos - 13
    } else {
        pos + 3
    }
}

/// The grid column of a cursor position.
pub open spec fn grid_col(pos: int) -> int {
    if 5 <= pos <= 12 {
        1
    } else {
        0
    }
}

/// Whether a cursor position appears on the grid.
pub open spec fn on_grid(pos: int) -> bool {
    0 <= pos <= 15
}

/// The position reached from `pos` in direction `dir`: Left and Right move
/// between the columns (staying put at the edge), Up and Down move along the
/// column and swap to the other column at the top and bottom rows. A position
/// off the grid does not move.
pub open spec fn nav_target(pos: int, dir: NavDir) -> int {
    if !on_grid(pos) {
        pos
    } else {
        let row = grid_row(pos);
        let col = grid_col(pos);
        match dir {
            NavDir::Left => nav_grid_spec(row, 0),
            NavDir::Right => nav_grid_spec(row, 1),
            NavDir::Up => if row > 0 {
                nav_grid_spec(row - 1, col)
            } else {
                nav_grid_spec(0, 1 - col)
            },
            NavDir::Down => if row < 7 {
                nav_grid_spec(row + 1, col)
            } else {
                nav_grid_spec(7, 1 - col)
            },
        }
    }
}

/// The cursor position at a grid cell.
fn nav_grid(row: usize, col: usize) -> (r: usize)
    requires
        row < 8,
        col < 2,
    ensures
        r == nav_grid_spec(row as int, col as int),
{
    if col == 1 {
        12 - row
    } else if row <= 2 {
        13 + row
    } else {
        row - 3
    }
}

/// Returns the (row, col) grid coordinates for a cursor position, or `None`
/// if `pos` is not represented in the grid.
fn cursor_to_grid(pos: usize) -> (r: Option<(usize, usize)>)
    ensures
        match r {
            Some((row, col)) => on_grid(pos as int) && row == grid_row(pos as int) && col == grid_col(pos as int),
            None => !on_grid(pos as int),
        },
{
    let mut row: usize = 0;
    while row < 8
        invariant
            row <= 8,
            forall|rr: int, cc: int| 0 <= rr < row && 0 <= cc < 2 ==> nav_grid_spec(rr, cc) != pos,
        decreases 8 - row,
    {
        let mut col: usize = 0;
        while col < 2
            invariant
                row < 8,
                col <= 2,
                forall|rr: int, cc: int| 0 <= rr < row && 0 <= cc < 2 ==> nav_grid_spec(rr, cc) != pos,
                forall|cc: int| 0 <= cc < col ==> nav_grid_spec(row as int, cc) != pos,
            decreases 2 - col,
        {
            if nav_grid(row, col) == pos {
                return Some((row, col));
            }
            col = col + 1;
        }
        row = row + 1;
    }
    proof {
        if on_grid(pos as int) {
            assert(nav_grid_spec(grid_row(pos as int), grid_col(pos as int)) == pos);
        }
    }
    None
}

/// Returns the cursor position reached by moving one step in `dir` from `pos`.
/// UP/DOWN wrap across columns at the board edges.
pub fn nav_cursor(pos: usize, dir: NavDir) -> (r: usize)
    ensures
        r == nav_target(pos as int, dir),
{
    let (row, col) = match cursor_to_grid(pos) {
        Some(p) => p,
        None => return pos,
    };
    let (new_row, new_col) = match dir {
        NavDir::Left => (row, if col >= 1 { col - 1 } else { 0 }),
        NavDir::Right => (row, if col + 1 <= 1 { col + 1 } else { 1 }),
        NavDir::Up => {
            if row > 0 {
                (row - 1, col)
            } else {
                (0, 1 - col)  // wrap: swap column at top row

            }
        },
        NavDir::Down => {
            if row < 7 {
                (row + 1, col)
            } else {
                (7, 1 - col)  // wrap: swap column at bottom row

            }
        },
    };
    nav_grid(new_row, new_col)
}

/// Every grid cell holds a different position, and the grid holds exactly the
/// positions 0–15 (the pool, the 14 path steps and the bear-off slot).
pub proof fn lemma_grid_is_a_bijection()
    ensures
        forall|row: int, col: int|
            0 <= row < 8 && 0 <= col < 2 ==> on_grid(#[trigger] nav_grid_spec(row, col)) && grid_row(
                nav_grid_spec(row, col),
            ) == row && grid_col(nav_grid_spec(row, col)) == col,
        forall|pos: int|
            on_grid(pos) ==> 0 <= #[trigger] grid_row(pos) < 8 && 0 <= grid_col(pos) < 2 && nav_grid_spec(
                grid_row(pos),
                grid_col(pos),
            ) == pos,
{
}

/// Navigation never leaves the grid; Left/Right step between the two cells of a
/// row and undo each other; Up/Down undo each other away from the top and bottom
/// rows, and swap columns at those rows.
pub proof fn lemma_nav_laws(pos: int)
    requires
        on_grid(pos),
    ensures
        forall|d: NavDir| on_grid(#[trigger] nav_target(pos, d)),
        grid_col(pos) == 0 ==> nav_target(nav_target(pos, NavDir::Right), NavDir::Left) == pos,
        grid_col(pos) == 1 ==> nav_target(nav_target(pos, NavDir::Left), NavDir::Right) == pos,
        grid_col(pos) == 0 ==> nav_target(pos, NavDir::Left) == pos,
        grid_col(pos) == 1 ==> nav_target(pos, NavDir::Right) == pos,
        grid_row(pos) > 0 ==> nav_target(nav_target(pos, NavDir::Up), NavDir::Down) == pos,
        grid_row(pos) < 7 ==> nav_target(nav_target(pos, NavDir::Down), NavDir::Up) == pos,
        grid_row(pos) == 0 ==> nav_target(pos, NavDir::Up) == nav_grid_spec(0, 1 - grid_col(pos)),
        grid_row(pos) == 7 ==> nav_target(pos, NavDir::Down) == nav_grid_spec(7, 1 - grid_col(pos)),
{
}

} // verus!
