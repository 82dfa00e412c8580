//! From raw input locations to board squares.
use vstd::prelude::*;
use crate::types::{Direction, Square};

verus! {

/// Width of one square on screen, in character columns.
pub const CELL_WIDTH: usize = 3;

/// The square under a pointer at `(x, y)` on a board drawn with its top left
/// corner at `(off_x, off_y)`, rank 8 at the top, each square three columns
/// wide and one row high.
pub open spec fn pointer_square(x: int, y: int, off_x: int, off_y: int) -> Option<Square> {
    if x < off_x || y < off_y {
        None
    } else {
        let col = (x - off_x) / 3;
        let row = y - off_y;
        if col < 8 && row < 8 {
            Some(Square { file: col as u8, rank: (7 - row) as u8 })
        } else {
            None
        }
    }
}

/// Maps a pointer location to the square under it, if it lies on the board.
pub fn get_sq(x: usize, y: usize, off_x: usize, off_y: usize) -> (r: Option<Square>)
    ensures
        r == pointer_square(x as int, y as int, off_x as int, off_y as int),
        r matches Some(s) ==> s.wf(),
{
    if x < off_x || y < off_y {
        return None;
    }
    let col = (x - off_x) / CELL_WIDTH;
    let row = y - off_y;
    if col < 8 && row < 8 {
        Some(Square { file: col as u8, rank: (7 - row) as u8 })
    } else {
        None
    }
}

/// The square one step from `s` in direction `d`, or `s` itself where the
/// step would leave the board.
pub open spec fn step_spec(s: Square, d: Direction) -> Square {
    match d {
        Direction::Left => if s.file > 0 { Square { file: (s.file - 1) as u8, ..s } } else { s },
        Direction::Right => if s.file < 7 { Square { file: (s.file + 1) as u8, ..s } } else { s },
        Direction::Up => if s.rank < 7 { Square { rank: (s.rank + 1) as u8, ..s } } else { s },
        Direction::Down => if s.rank > 0 { Square { rank: (s.rank - 1) as u8, ..s } } else { s },
    }
}

/// Moves the keyboard cursor by one square, refusing to leave the board.
pub fn step(s: Square, d: Direction) -> (r: Square)
    requires
        s.wf(),
    ensures
        r == step_spec(s, d),
        r.wf(),
{
    match d {
        Direction::Left => if s.file > 0 { Square { file: s.file - 1, ..s } } else { s },
        Direction::Right => if s.file < 7 { Square { file: s.file + 1, ..s } } else { s },
        Direction::Up => if s.rank < 7 { Square { rank: s.rank + 1, ..s } } else { s },
        Direction::Down => if s.rank > 0 { Square { rank: s.rank - 1, ..s } } else { s },
    }
}

} // verus!
