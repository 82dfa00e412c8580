//! The position engine: shakmaty's standard chess position, seen through a
//! few trusted calls that hand back plain values.
use vstd::prelude::*;
use shakmaty::Position;
use crate::types::{role_of_code, side_of_code, Piece, Role, Side, Square};

verus! {

#[verifier::external_type_specification]
#[verifier::external_body]
pub struct ExChess(shakmaty::Chess);

#[verifier::external_type_specification]
#[verifier::external_body]
pub struct ExMove(shakmaty::Move);

#[verifier::external_type_specification]
#[verifier::external_body]
pub struct ExFen(shakmaty::fen::Fen);

/// A legal move as the engine lists it: origin and target square indices,
/// the promotion role's code, and the engine's own move value.
#[derive(Clone, Copy)]
pub struct RawMove {
    pub from: Option<u8>,
    pub to: u8,
    pub promotion: Option<u8>,
    pub mv: shakmaty::Move,
}

/// The moves that the engine lists as legal in a position, in its order.
pub uninterp spec fn legal_of(c: shakmaty::Chess) -> Seq<RawMove>;

/// The position after the engine plays a move.
pub uninterp spec fn after_of(c: shakmaty::Chess, m: shakmaty::Move) -> shakmaty::Chess;

/// Whether the side to move is checkmated.
pub uninterp spec fn checkmate_of(c: shakmaty::Chess) -> bool;

/// Whether the game is over (checkmate, stalemate, insufficient material).
pub uninterp spec fn game_over_of(c: shakmaty::Chess) -> bool;

/// The piece on a square (by index), as its color code and role code.
pub uninterp spec fn piece_code_of(c: shakmaty::Chess, sq: u8) -> Option<(u8, u8)>;

/// The color code of the side to move.
pub uninterp spec fn turn_code_of(c: shakmaty::Chess) -> u8;

pub open spec fn raw_wf(r: RawMove) -> bool {
    &&& (r.from matches Some(f) ==> f < 64)
    &&& r.to < 64
    &&& (r.promotion matches Some(p) ==> 1 <= p <= 6)
}

/// The role code of the piece that starts on a back-rank file: rooks,
/// knights, bishops, then queen on file d and king on file e.
pub open spec fn back_rank_code(file: int) -> u8 {
    if file == 0 || file == 7 {
        4
    } else if file == 1 || file == 6 {
        2
    } else if file == 2 || file == 5 {
        3
    } else if file == 3 {
        5
    } else {
        6
    }
}

/// The piece on a square (by index) in the standard initial position, as
/// color code and role code.
pub open spec fn initial_code(sq: u8) -> Option<(u8, u8)> {
    if sq < 8 {
        Some((1, back_rank_code(sq as int)))
    } else if sq < 16 {
        Some((1, 1))
    } else if sq < 48 {
        None
    } else if sq < 56 {
        Some((0, 1))
    } else {
        Some((0, back_rank_code(sq - 56)))
    }
}

/// Relies on `Chess::default`, which is `Chess::new`: the standard initial
/// position (`Board::new`), white to move.
#[verifier::external_body]
pub(crate) fn engine_initial() -> (r: shakmaty::Chess)
    ensures
        turn_code_of(r) == 1,
        forall|sq: u8| sq < 64 ==> #[trigger] piece_code_of(r, sq) == initial_code(sq),
{
    shakmaty::Chess::default()
}

/// Relies on `Fen::from_ascii`: the FEN record that the text spells, if any.
#[verifier::external_body]
pub(crate) fn parse_fen(text: &str) -> Option<shakmaty::fen::Fen> {
    shakmaty::fen::Fen::from_ascii(text.as_bytes()).ok()
}

/// Relies on `Fen::into_position`: the standard chess position that the
/// record describes, if it is a valid one.
#[verifier::external_body]
pub(crate) fn fen_position(f: shakmaty::fen::Fen) -> Option<shakmaty::Chess> {
    f.into_position(shakmaty::CastlingMode::Standard).ok()
}

/// Relies on `Position::legal_moves`, with `Move::from`, `Move::to` and
/// `Move::promotion` of each move turned into integers by shakmaty's `From`.
#[verifier::external_body]
pub(crate) fn engine_legal_moves(c: &shakmaty::Chess) -> (r: Vec<RawMove>)
    ensures
        r@ == legal_of(*c),
        forall|i: int| 0 <= i < r@.len() ==> raw_wf(#[trigger] r@[i]),
{
    c.legal_moves().into_iter().map(|m| RawMove {
        from: m.from().map(u8::from),
        to: u8::from(m.to()),
        promotion: m.promotion().map(u8::from),
        mv: m,
    }).collect()
}

/// Relies on `Position::play_unchecked`, given a move that the engine listed
/// as legal in that position; the move passes the turn to the other side.
#[verifier::external_body]
pub(crate) fn engine_play(c: &mut shakmaty::Chess, m: shakmaty::Move)
    requires
        exists|i: int| 0 <= i < legal_of(*old(c)).len() && (#[trigger] legal_of(*old(c))[i]).mv == m,
    ensures
        *final(c) == after_of(*old(c), m),
        turn_code_of(*final(c)) == 1 - turn_code_of(*old(c)),
{
    c.play_unchecked(m)
}

/// Relies on `Position::is_checkmate`, which is true only where no legal
/// move remains.
#[verifier::external_body]
pub(crate) fn engine_is_checkmate(c: &shakmaty::Chess) -> (r: bool)
    ensures
        r == checkmate_of(*c),
        r ==> legal_of(*c).len() == 0,
{
    c.is_checkmate()
}

/// Relies on `Position::is_game_over`, which is true wherever no legal move
/// remains.
#[verifier::external_body]
pub(crate) fn engine_is_game_over(c: &shakmaty::Chess) -> (r: bool)
    ensures
        r == game_over_of(*c),
        legal_of(*c).len() == 0 ==> r,
{
    c.is_game_over()
}

/// Relies on `Board::piece_at`, with the piece's color and role turned into
/// integers by shakmaty's `From`.
#[verifier::external_body]
pub(crate) fn engine_piece_at(c: &shakmaty::Chess, sq: u8) -> (r: Option<(u8, u8)>)
    requires
        sq < 64,
    ensures
        r == piece_code_of(*c, sq),
        r matches Some(p) ==> p.0 <= 1 && 1 <= p.1 <= 6,
{
    c.board().piece_at(shakmaty::Square::new(sq as u32)).map(|p| (u8::from(p.color), u8::from(p.role)))
}

/// Relies on `Position::turn`, turned into an integer by shakmaty's `From`.
#[verifier::external_body]
pub(crate) fn engine_turn(c: &shakmaty::Chess) -> (r: u8)
    ensures
        r == turn_code_of(*c),
        r <= 1,
{
    u8::from(c.turn())
}

/// A legal move in the library's terms, with the engine's move value carried
/// along to be played.
#[derive(Clone, Copy)]
pub struct Candidate {
    pub from: Option<Square>,
    pub to: Square,
    pub promotion: Option<Role>,
    pub mv: shakmaty::Move,
}

pub open spec fn candidate_of(r: RawMove) -> Candidate {
    Candidate {
        from: match r.from {
            Some(f) => Some(Square::from_index_spec(f as int)),
            None => None,
        },
        to: Square::from_index_spec(r.to as int),
        promotion: match r.promotion {
            Some(p) => Some(role_of_code(p)),
            None => None,
        },
        mv: r.mv,
    }
}

/// The legal moves of a position, in the engine's order.
pub open spec fn legal_moves_of(c: shakmaty::Chess) -> Seq<Candidate> {
    legal_of(c).map_values(|r: RawMove| candidate_of(r))
}

/// The piece on a square.
pub open spec fn piece_of(c: shakmaty::Chess, sq: Square) -> Option<Piece> {
    match piece_code_of(c, sq.index_spec() as u8) {
        Some(p) => Some(Piece { color: side_of_code(p.0), role: role_of_code(p.1) }),
        None => None,
    }
}

/// The piece that starts on a back-rank file.
pub open spec fn back_rank_role(file: u8) -> Role {
    if file == 0 || file == 7 {
        Role::Rook
    } else if file == 1 || file == 6 {
        Role::Knight
    } else if file == 2 || file == 5 {
        Role::Bishop
    } else if file == 3 {
        Role::Queen
    } else {
        Role::King
    }
}

/// The piece on a square in the standard initial position.
pub open spec fn initial_piece(sq: Square) -> Option<Piece> {
    if sq.rank == 0 {
        Some(Piece { color: Side::White, role: back_rank_role(sq.file) })
    } else if sq.rank == 1 {
        Some(Piece { color: Side::White, role: Role::Pawn })
    } else if sq.rank == 6 {
        Some(Piece { color: Side::Black, role: Role::Pawn })
    } else if sq.rank == 7 {
        Some(Piece { color: Side::Black, role: back_rank_role(sq.file) })
    } else {
        None
    }
}

/// The standard initial position: its layout, white to move.
pub open spec fn is_initial(c: shakmaty::Chess) -> bool {
    &&& turn_of(c) == Side::White
    &&& forall|sq: Square| sq.wf() ==> #[trigger] piece_of(c, sq) == initial_piece(sq)
}

/// The side to move.
pub open spec fn turn_of(c: shakmaty::Chess) -> Side {
    side_of_code(turn_code_of(c))
}

/// The position after a sequence of moves, each played by the engine.
pub open spec fn replay(c: shakmaty::Chess, moves: Seq<Candidate>) -> shakmaty::Chess
    decreases moves.len(),
{
    if moves.len() == 0 {
        c
    } else {
        after_of(replay(c, moves.drop_last()), moves.last().mv)
    }
}

/// Each move of the sequence is legal in the position reached before it.
pub open spec fn legal_path(c: shakmaty::Chess, moves: Seq<Candidate>) -> bool {
    forall|i: int|
        0 <= i < moves.len() ==> #[trigger] legal_moves_of(replay(c, moves.take(i))).contains(
            moves[i],
        )
}

/// The legal moves of the side to move, in the engine's order.
pub fn legal_moves(c: &shakmaty::Chess) -> (r: Vec<Candidate>)
    ensures
        r@ == legal_moves_of(*c),
{
    let raw = engine_legal_moves(c);
    let mut out: Vec<Candidate> = Vec::new();
    let mut i: usize = 0;
    while i < raw.len()
        invariant
            i <= raw@.len(),
            raw@ == legal_of(*c),
            forall|k: int| 0 <= k < raw@.len() ==> raw_wf(#[trigger] raw@[k]),
            out@ == raw@.take(i as int).map_values(|r: RawMove| candidate_of(r)),
        decreases raw.len() - i,
    {
        let r = raw[i];
        assert(raw_wf(raw@[i as int]));
        let from = match r.from {
            Some(f) => Some(Square::from_index(f)),
            None => None,
        };
        let promotion = match r.promotion {
            Some(p) => Some(Role::from_code(p)),
            None => None,
        };
        out.push(Candidate { from, to: Square::from_index(r.to), promotion, mv: r.mv });
        assert(raw@.take(i + 1) =~= raw@.take(i as int).push(raw@[i as int]));
        i = i + 1;
        assert(out@ =~= raw@.take(i as int).map_values(|r: RawMove| candidate_of(r)));
    }
    assert(raw@.take(i as int) =~= raw@);
    out
}

/// The standard initial position.
pub fn initial_position() -> (r: shakmaty::Chess)
    ensures
        is_initial(r),
{
    let r = engine_initial();
    assert forall|sq: Square| sq.wf() implies #[trigger] piece_of(r, sq) == initial_piece(sq) by {
        let i = sq.index_spec() as u8;
        assert(piece_code_of(r, i) == initial_code(i));
    }
    r
}

/// Plays a legal move.
pub fn play(c: &mut shakmaty::Chess, m: Candidate)
    requires
        legal_moves_of(*old(c)).contains(m),
    ensures
        *final(c) == after_of(*old(c), m.mv),
        turn_code_of(*final(c)) == 1 - turn_code_of(*old(c)),
{
    let ghost k = choose|k: int| 0 <= k < legal_moves_of(*c).len() && legal_moves_of(*c)[k] == m;
    assert(legal_of(*c)[k].mv == m.mv);
    engine_play(c, m.mv);
}

/// The piece on a square, if any.
pub fn piece_at(c: &shakmaty::Chess, sq: Square) -> (r: Option<Piece>)
    requires
        sq.wf(),
    ensures
        r == piece_of(*c, sq),
{
    match engine_piece_at(c, sq.index()) {
        Some(p) => Some(Piece { color: Side::from_code(p.0), role: Role::from_code(p.1) }),
        None => None,
    }
}

/// The side to move.
pub fn turn(c: &shakmaty::Chess) -> (r: Side)
    ensures
        r == turn_of(*c),
{
    Side::from_code(engine_turn(c))
}

} // verus!
