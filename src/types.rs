use vstd::prelude::*;

verus! {

/// One of the 64 cells of the board, by file (0 is file A) and rank (0 is
/// the first rank).
#[derive(Clone, Copy, Debug, PartialEq, Eq, Structural)]
pub struct Square {
    pub file: u8,
    pub rank: u8,
}

impl Square {
    pub open spec fn wf(self) -> bool {
        self.file < 8 && self.rank < 8
    }

    /// The index used by the position engine: `file + 8 * rank`.
    pub open spec fn index_spec(self) -> int {
        self.file + 8 * self.rank
    }

    pub open spec fn from_index_spec(i: int) -> Square {
        Square { file: (i % 8) as u8, rank: (i / 8) as u8 }
    }

    pub fn new(file: u8, rank: u8) -> (r: Square)
        requires
            file < 8,
            rank < 8,
        ensures
            r.file == file,
            r.rank == rank,
    {
        Square { file, rank }
    }

    pub fn index(&self) -> (r: u8)
        requires
            self.wf(),
        ensures
            r == self.index_spec(),
            r < 64,
    {
        self.file + 8 * self.rank
    }

    pub fn from_index(i: u8) -> (r: Square)
        requires
            i < 64,
        ensures
            r == Square::from_index_spec(i as int),
            r.wf(),
            r.index_spec() == i,
    {
        Square { file: i % 8, rank: i / 8 }
    }
}

/// A piece type.
#[derive(Clone, Copy, Debug, PartialEq, Eq, Structural)]
pub enum Role {
    Pawn,
    Knight,
    Bishop,
    Rook,
    Queen,
    King,
}

/// The role numbered as the position engine numbers it (pawn 1 to king 6).
pub open spec fn role_of_code(code: u8) -> Role {
    if code == 1 {
        Role::Pawn
    } else if code == 2 {
        Role::Knight
    } else if code == 3 {
        Role::Bishop
    } else if code == 4 {
        Role::Rook
    } else if code == 5 {
        Role::Queen
    } else {
        Role::King
    }
}

impl Role {
    pub fn from_code(code: u8) -> (r: Role)
        requires
            1 <= code <= 6,
        ensures
            r == role_of_code(code),
    {
        if code == 1 {
            Role::Pawn
        } else if code == 2 {
            Role::Knight
        } else if code == 3 {
            Role::Bishop
        } else if code == 4 {
            Role::Rook
        } else if code == 5 {
            Role::Queen
        } else {
            Role::King
        }
    }
}

/// A side of the game.
#[derive(Clone, Copy, Debug, PartialEq, Eq, Structural)]
pub enum Side {
    White,
    Black,
}

/// The side numbered as the position engine numbers it (black 0, white 1).
pub open spec fn side_of_code(code: u8) -> Side {
    if code == 1 {
        Side::White
    } else {
        Side::Black
    }
}

impl Side {
    pub fn from_code(code: u8) -> (r: Side)
        requires
            code <= 1,
        ensures
            r == side_of_code(code),
    {
        if code == 1 {
            Side::White
        } else {
            Side::Black
        }
    }
}

/// A piece: its side and its role.
#[derive(Clone, Copy, Debug, PartialEq, Eq, Structural)]
pub struct Piece {
    pub color: Side,
    pub role: Role,
}

/// A step of the keyboard cursor.
#[derive(Clone, Copy, Debug, PartialEq, Eq, Structural)]
pub enum Direction {
    Left,
    Right,
    Up,
    Down,
}

/// How a finished human turn left the game.
#[derive(Clone, Copy, Debug, PartialEq, Eq, Structural)]
pub enum Outcome {
    Ongoing,
    HumanWins,
    OpponentWins,
    Draw,
}

} // verus!
