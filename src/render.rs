//! What each square shows: a glyph and a background.
use vstd::prelude::*;
use crate::types::{Piece, Role, Side, Square};

verus! {

/// The chess symbol of each piece.
pub open spec fn glyph_of(p: Piece) -> char {
    match (p.color, p.role) {
        (Side::Black, Role::Pawn) => '\u{265F}',
        (Side::Black, Role::Knight) => '\u{265E}',
        (Side::Black, Role::Bishop) => '\u{265D}',
        (Side::Black, Role::Rook) => '\u{265C}',
        (Side::Black, Role::Queen) => '\u{265B}',
        (Side::Black, Role::King) => '\u{265A}',
        (Side::White, Role::Pawn) => '\u{2659}',
        (Side::White, Role::Knight) => '\u{2658}',
        (Side::White, Role::Bishop) => '\u{2657}',
        (Side::White, Role::Rook) => '\u{2656}',
        (Side::White, Role::Queen) => '\u{2655}',
        (Side::White, Role::King) => '\u{2654}',
    }
}

pub fn piece_to_char(p: Piece) -> (r: char)
    ensures
        r == glyph_of(p),
{
    match (p.color, p.role) {
        (Side::Black, Role::Pawn) => '\u{265F}',
        (Side::Black, Role::Knight) => '\u{265E}',
        (Side::Black, Role::Bishop) => '\u{265D}',
        (Side::Black, Role::Rook) => '\u{265C}',
        (Side::Black, Role::Queen) => '\u{265B}',
        (Side::Black, Role::King) => '\u{265A}',
        (Side::White, Role::Pawn) => '\u{2659}',
        (Side::White, Role::Knight) => '\u{2658}',
        (Side::White, Role::Bishop) => '\u{2657}',
        (Side::White, Role::Rook) => '\u{2656}',
        (Side::White, Role::Queen) => '\u{2655}',
        (Side::White, Role::King) => '\u{2654}',
    }
}

/// The background of a square.
#[derive(Clone, Copy, Debug, PartialEq, Eq, Structural)]
pub enum Shade {
    /// The selected move origin.
    Origin,
    /// The keyboard cursor.
    Cursor,
    /// A dark square of the checkerboard.
    Dark,
    /// A light square of the checkerboard.
    Light,
}

/// A1 is dark, and colors alternate along files and ranks.
pub open spec fn is_dark(s: Square) -> bool {
    (s.file + s.rank) % 2 == 0
}

/// The origin highlight comes first, then the cursor, then the checkerboard.
pub open spec fn shade_of(s: Square, origin: Option<Square>, cursor: Option<Square>) -> Shade {
    if origin == Some(s) {
        Shade::Origin
    } else if cursor == Some(s) {
        Shade::Cursor
    } else if is_dark(s) {
        Shade::Dark
    } else {
        Shade::Light
    }
}

fn same_square(a: Option<Square>, s: Square) -> (r: bool)
    ensures
        r == (a == Some(s)),
{
    match a {
        Some(x) => x.file == s.file && x.rank == s.rank,
        None => false,
    }
}

pub fn shade(s: Square, origin: Option<Square>, cursor: Option<Square>) -> (r: Shade)
    requires
        s.wf(),
    ensures
        r == shade_of(s, origin, cursor),
{
    if same_square(origin, s) {
        Shade::Origin
    } else if same_square(cursor, s) {
        Shade::Cursor
    } else if (s.file + s.rank) % 2 == 0 {
        Shade::Dark
    } else {
        Shade::Light
    }
}

/// What one square shows.
#[derive(Clone, Copy, Debug, PartialEq, Eq, Structural)]
pub struct Cell {
    pub glyph: Option<char>,
    pub background: Shade,
}

pub open spec fn cell_of(piece: Option<Piece>, s: Square, origin: Option<Square>, cursor: Option<Square>) -> Cell {
    Cell {
        glyph: match piece {
            Some(p) => Some(glyph_of(p)),
            None => None,
        },
        background: shade_of(s, origin, cursor),
    }
}

} // verus!
