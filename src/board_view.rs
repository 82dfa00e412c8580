//! The controller: turns input events into selections, moves and replies.
use vstd::prelude::*;
use crate::engine::{
    after_of, checkmate_of, engine_is_checkmate, engine_is_game_over, fen_position, game_over_of,
    initial_position, is_initial, legal_moves, legal_moves_of, legal_path, parse_fen, piece_at,
    piece_of, play, replay, turn, turn_code_of, turn_of, Candidate,
};
use crate::mapper::{get_sq, pointer_square, step, step_spec};
use crate::opponent::{choose_reply, fresh_rng, seeded_rng};
use crate::render::{cell_of, piece_to_char, shade, Cell};
use crate::types::{Direction, Outcome, Piece, Role, Side, Square};

verus! {

/// Which square, if any, is the origin of the move being entered.
#[derive(Clone, Copy, Debug, PartialEq, Eq, Structural)]
pub enum Selection {
    NoOrigin,
    OriginSelected(Square),
}

/// An input event from the host.
#[derive(Clone, Copy, Debug)]
pub enum Input {
    /// A pointer press at `(x, y)` on a board drawn from `(off_x, off_y)`.
    Pointer { x: usize, y: usize, off_x: usize, off_y: usize },
    /// An arrow key.
    Step(Direction),
    /// The key that chooses the square under the cursor.
    Confirm,
    /// A role picked in the promotion dialog.
    ChooseRole(Role),
}

/// What handling an input came to.
#[derive(Clone, Copy, Debug)]
pub struct Response {
    /// The event was used.
    pub consumed: bool,
    /// `Some` when a human move was played, with how the turn left the game.
    pub outcome: Option<Outcome>,
    /// The host should offer the promotion roles.
    pub ask_role: bool,
}

pub open spec fn consumed_only(r: Response) -> bool {
    r.consumed && r.outcome is None && !r.ask_role
}

/// The square holds a piece of the side to move.
pub open spec fn owned_by_mover(c: shakmaty::Chess, sq: Square) -> bool {
    piece_of(c, sq) matches Some(p) && p.color == turn_of(c)
}

/// The rank from which a pawn of side `s` promotes on its next move.
pub open spec fn pre_promotion_rank(s: Side) -> u8 {
    match s {
        Side::White => 6,
        Side::Black => 1,
    }
}

/// Some legal move from `sq` promotes.
pub open spec fn has_promotion_from(moves: Seq<Candidate>, sq: Square) -> bool {
    exists|i: int|
        0 <= i < moves.len() && (#[trigger] moves[i]).from == Some(sq) && moves[i].promotion is Some
}

/// Choosing `sq` as origin opens the promotion dialog: a pawn of the side to
/// move one rank short of promoting, with a promoting move available.
pub open spec fn triggers_promotion(c: shakmaty::Chess, sq: Square) -> bool {
    &&& piece_of(c, sq) matches Some(p) && p.role == Role::Pawn
    &&& sq.rank == pre_promotion_rank(turn_of(c))
    &&& has_promotion_from(legal_moves_of(c), sq)
}

/// A move fits the entered origin, destination and chosen role (any role
/// when none was chosen).
pub open spec fn intends(m: Candidate, from: Square, to: Square, role: Option<Role>) -> bool {
    &&& m.from == Some(from)
    &&& m.to == to
    &&& (role is None || m.promotion == role)
}

pub open spec fn intent(from: Square, to: Square, role: Option<Role>) -> spec_fn(Candidate) -> bool {
    |m: Candidate| intends(m, from, to, role)
}

/// The legal moves that fit what was entered.
pub open spec fn matching(c: shakmaty::Chess, from: Square, to: Square, role: Option<Role>) -> Seq<Candidate> {
    legal_moves_of(c).filter(intent(from, to, role))
}

/// How a position leaves the game after the given side's move.
pub open spec fn verdict(c: shakmaty::Chess, win: Outcome) -> Outcome {
    if checkmate_of(c) {
        win
    } else if game_over_of(c) {
        Outcome::Draw
    } else {
        Outcome::Ongoing
    }
}

/// A human turn from `c`: the human's move `m`, then, unless that ended the
/// game (checkmate being one of the ends), one legal reply. `plies` are the moves played, `after` the position
/// reached and `out` the outcome reported.
pub open spec fn turn_spec(
    c: shakmaty::Chess,
    m: Candidate,
    plies: Seq<Candidate>,
    after: shakmaty::Chess,
    out: Outcome,
) -> bool {
    let mid = after_of(c, m.mv);
    if game_over_of(mid) {
        &&& plies == seq![m]
        &&& after == mid
        &&& turn_of(after) != turn_of(c)
        &&& out == verdict(mid, Outcome::HumanWins)
    } else {
        &&& plies.len() == 2
        &&& plies[0] == m
        &&& legal_moves_of(mid).contains(plies[1])
        &&& after == after_of(mid, plies[1].mv)
        &&& turn_of(after) == turn_of(c)
        &&& out == verdict(after, Outcome::OpponentWins)
    }
}

pub open spec fn origin_of(s: Selection) -> Option<Square> {
    match s {
        Selection::OriginSelected(sq) => Some(sq),
        Selection::NoOrigin => None,
    }
}

/// The board controller of one game: the engine's position, the selection,
/// the keyboard cursor, the promotion role chosen so far and the opponent's
/// random generator.
pub struct BoardView {
    board: shakmaty::Chess,
    focused: Selection,
    highlighted: Option<Square>,
    promotion: Option<Role>,
    rng: rand::rngs::StdRng,
    start: Ghost<shakmaty::Chess>,
    played: Ghost<Seq<Candidate>>,
}

/// The game went on from `pre` to `post` by a human turn with move `m`.
pub open spec fn turn_taken(pre: BoardView, post: BoardView, m: Candidate, out: Outcome) -> bool {
    let n = pre.played().len() as int;
    &&& post.played().len() >= n
    &&& post.played().take(n) == pre.played()
    &&& turn_spec(pre.position(), m, post.played().skip(n), post.position(), out)
    &&& post.selection() == Selection::NoOrigin
    &&& post.pending_role() is None
}

/// The position, the moves played and the start position are the same;
/// the selection, the cursor and the promotion role may differ.
pub open spec fn same_game(pre: BoardView, post: BoardView) -> bool {
    &&& post.position() == pre.position()
    &&& post.played() == pre.played()
    &&& post.start_position() == pre.start_position()
}

/// The effect of choosing square `sq`, by pointer or by the cursor.
pub open spec fn square_chosen(pre: BoardView, post: BoardView, sq: Square, r: Response) -> bool {
    let c = pre.position();
    &&& post.start_position() == pre.start_position()
    &&& post.cursor() == pre.cursor()
    &&& r.consumed
    &&& match pre.selection() {
        Selection::NoOrigin => {
            &&& same_game(pre, post)
            &&& r.outcome is None
            &&& if owned_by_mover(c, sq) {
                &&& post.selection() == Selection::OriginSelected(sq)
                &&& r.ask_role == triggers_promotion(c, sq)
                &&& post.pending_role() == (if triggers_promotion(c, sq) {
                    pre.pending_role()
                } else {
                    None
                })
            } else {
                &&& post.selection() == Selection::NoOrigin
                &&& post.pending_role() == pre.pending_role()
                &&& !r.ask_role
            }
        },
        Selection::OriginSelected(from) => {
            let found = matching(c, from, sq, pre.pending_role());
            &&& !r.ask_role
            &&& if found.len() == 1 {
                r.outcome matches Some(out) && turn_taken(pre, post, found[0], out)
            } else {
                &&& same_game(pre, post)
                &&& post.selection() == Selection::NoOrigin
                &&& post.pending_role() == pre.pending_role()
                &&& r.outcome is None
            }
        },
    }
}

/// The cursor as it stands after a navigation key.
pub open spec fn cursor_after(cursor: Option<Square>, d: Direction) -> Square {
    match cursor {
        Some(c) => step_spec(c, d),
        None => Square { file: 0, rank: 0 },
    }
}

/// The effect of one input event.
pub open spec fn input_handled(pre: BoardView, post: BoardView, e: Input, r: Response) -> bool {
    match e {
        Input::Pointer { x, y, off_x, off_y } => match pointer_square(
            x as int,
            y as int,
            off_x as int,
            off_y as int,
        ) {
            Some(sq) => square_chosen(pre, post, sq, r),
            None => post == pre && !r.consumed && r.outcome is None && !r.ask_role,
        },
        Input::Step(d) => {
            &&& same_game(pre, post)
            &&& post.selection() == pre.selection()
            &&& post.pending_role() == pre.pending_role()
            &&& post.cursor() == Some(cursor_after(pre.cursor(), d))
            &&& consumed_only(r)
        },
        Input::Confirm => match pre.cursor() {
            Some(c) => square_chosen(pre, post, c, r),
            None => {
                &&& same_game(pre, post)
                &&& post.selection() == pre.selection()
                &&& post.pending_role() == pre.pending_role()
                &&& post.cursor() == Some(Square { file: 0, rank: 0 })
                &&& consumed_only(r)
            },
        },
        Input::ChooseRole(role) => {
            &&& same_game(pre, post)
            &&& post.selection() == pre.selection()
            &&& post.cursor() == pre.cursor()
            &&& post.pending_role() == Some(role)
            &&& consumed_only(r)
        },
    }
}

/// What square `s` shows in the state of `v`.
pub open spec fn view_cell(v: BoardView, s: Square) -> Cell {
    cell_of(piece_of(v.position(), s), s, origin_of(v.selection()), v.cursor())
}

proof fn lemma_path_push(c: shakmaty::Chess, moves: Seq<Candidate>, m: Candidate)
    requires
        legal_path(c, moves),
        legal_moves_of(replay(c, moves)).contains(m),
    ensures
        legal_path(c, moves.push(m)),
        replay(c, moves.push(m)) == after_of(replay(c, moves), m.mv),
{
    let s = moves.push(m);
    assert(s.drop_last() =~= moves);
    assert forall|i: int| 0 <= i < s.len() implies #[trigger] legal_moves_of(
        replay(c, s.take(i)),
    ).contains(s[i]) by {
        if i < moves.len() {
            assert(s.take(i) =~= moves.take(i));
            assert(legal_moves_of(replay(c, moves.take(i))).contains(moves[i]));
        } else {
            assert(s.take(i) =~= moves);
        }
    }
}

impl BoardView {
    /// The engine's current position.
    pub closed spec fn position(self) -> shakmaty::Chess {
        self.board
    }

    pub closed spec fn selection(self) -> Selection {
        self.focused
    }

    pub closed spec fn cursor(self) -> Option<Square> {
        self.highlighted
    }

    /// The promotion role chosen and not yet used.
    pub closed spec fn pending_role(self) -> Option<Role> {
        self.promotion
    }

    /// The position the game started from.
    pub closed spec fn start_position(self) -> shakmaty::Chess {
        self.start@
    }

    /// Every move played so far, human and opponent in turn.
    pub closed spec fn played(self) -> Seq<Candidate> {
        self.played@
    }

    pub closed spec fn wf(self) -> bool {
        &&& (self.highlighted matches Some(s) ==> s.wf())
        &&& (self.focused matches Selection::OriginSelected(s) ==> s.wf() && owned_by_mover(
            self.board,
            s,
        ))
        &&& self.board == replay(self.start@, self.played@)
        &&& legal_path(self.start@, self.played@)
    }

    /// The state of a well-formed controller: its cursor and origin lie on
    /// the board, the origin holds a piece of the side to move, and its
    /// position is the start position with every move it played applied in
    /// turn through the engine, each legal where it was played.
    pub proof fn lemma_wf(self)
        requires
            self.wf(),
        ensures
            self.cursor() matches Some(s) ==> s.wf(),
            self.selection() matches Selection::OriginSelected(s) ==> s.wf() && owned_by_mover(
                self.position(),
                s,
            ),
            self.position() == replay(self.start_position(), self.played()),
            legal_path(self.start_position(), self.played()),
    {
    }

    fn start_from(board: shakmaty::Chess, rng: rand::rngs::StdRng) -> (r: Self)
        ensures
            r.wf(),
            r.position() == board,
            r.selection() == Selection::NoOrigin,
            r.cursor() is None,
            r.pending_role() is None,
            r.played() == Seq::<Candidate>::empty(),
            r.position() == r.start_position(),
    {
        BoardView {
            board,
            focused: Selection::NoOrigin,
            highlighted: None,
            promotion: None,
            rng,
            start: Ghost(board),
            played: Ghost(Seq::empty()),
        }
    }

    /// A game from the standard initial position, the opponent drawing from
    /// a generator seeded by the system.
    pub fn new() -> (r: Self)
        ensures
            r.wf(),
            r.selection() == Selection::NoOrigin,
            r.cursor() is None,
            r.pending_role() is None,
            r.played() == Seq::<Candidate>::empty(),
            r.position() == r.start_position(),
            is_initial(r.position()),
    {
        BoardView::start_from(initial_position(), fresh_rng())
    }

    /// A game from the standard initial position, the opponent drawing from
    /// a generator seeded with `seed`.
    pub fn with_seed(seed: u64) -> (r: Self)
        ensures
            r.wf(),
            r.selection() == Selection::NoOrigin,
            r.cursor() is None,
            r.pending_role() is None,
            r.played() == Seq::<Candidate>::empty(),
            r.position() == r.start_position(),
            is_initial(r.position()),
    {
        BoardView::start_from(initial_position(), seeded_rng(seed))
    }

    /// A game from the position that the FEN text describes, the opponent
    /// drawing from a generator seeded with `seed`; `None` where the text is
    /// no valid standard chess position.
    pub fn from_fen(text: &str, seed: u64) -> (r: Option<Self>)
        ensures
            r matches Some(v) ==> {
                &&& v.wf()
                &&& v.selection() == Selection::NoOrigin
                &&& v.cursor() is None
                &&& v.pending_role() is None
                &&& v.played() == Seq::<Candidate>::empty()
                &&& v.position() == v.start_position()
            },
    {
        match parse_fen(text) {
            Some(f) => match fen_position(f) {
                Some(board) => Some(BoardView::start_from(board, seeded_rng(seed))),
                None => None,
            },
            None => None,
        }
    }

    /// Plays one move and records it.
    fn play_and_record(&mut self, m: Candidate)
        requires
            old(self).board == replay(old(self).start@, old(self).played@),
            legal_path(old(self).start@, old(self).played@),
            legal_moves_of(old(self).board).contains(m),
        ensures
            final(self).board == after_of(old(self).board, m.mv),
            turn_code_of(final(self).board) == 1 - turn_code_of(old(self).board),
            final(self).played@ == old(self).played@.push(m),
            final(self).board == replay(final(self).start@, final(self).played@),
            legal_path(final(self).start@, final(self).played@),
            final(self).start == old(self).start,
            final(self).focused == old(self).focused,
            final(self).highlighted == old(self).highlighted,
            final(self).promotion == old(self).promotion,
    {
        proof {
            lemma_path_push(self.start@, self.played@, m);
        }
        play(&mut self.board, m);
        self.played = Ghost(self.played@.push(m));
    }

    /// Plays the human's move, then, unless the game is over, the
    /// opponent's random reply, and reports how the turn left the game.
    pub fn move_and_reply(&mut self, m: Candidate) -> (r: Outcome)
        requires
            old(self).wf(),
            legal_moves_of(old(self).position()).contains(m),
        ensures
            final(self).wf(),
            final(self).start_position() == old(self).start_position(),
            final(self).cursor() == old(self).cursor(),
            turn_taken(*old(self), *final(self), m, r),
    {
        let ghost pre = *self;
        self.focused = Selection::NoOrigin;
        self.promotion = None;
        self.play_and_record(m);
        let ghost n = pre.played@.len() as int;
        assert(self.played@.take(n) =~= pre.played@);
        if engine_is_game_over(&self.board) {
            assert(self.played@.skip(n) =~= seq![m]);
            if engine_is_checkmate(&self.board) {
                return Outcome::HumanWins;
            } else {
                return Outcome::Draw;
            }
        }
        let legals = legal_moves(&self.board);
        let reply = choose_reply(&legals, &mut self.rng);
        self.play_and_record(reply);
        assert(self.played@.take(n) =~= pre.played@);
        assert(self.played@.skip(n) =~= seq![m, reply]);
        if engine_is_checkmate(&self.board) {
            Outcome::OpponentWins
        } else if engine_is_game_over(&self.board) {
            Outcome::Draw
        } else {
            Outcome::Ongoing
        }
    }

    /// Handles the choice of square `sq`: picks an origin, or completes and
    /// plays the move from the origin already picked.
    pub fn process_focus_change(&mut self, sq: Square) -> (r: Response)
        requires
            old(self).wf(),
            sq.wf(),
        ensures
            final(self).wf(),
            square_chosen(*old(self), *final(self), sq, r),
    {
        match self.focused {
            Selection::NoOrigin => {
                let mover = turn(&self.board);
                match piece_at(&self.board, sq) {
                    Some(p) => {
                        if p.color == mover {
                            self.focused = Selection::OriginSelected(sq);
                            if promotes_from(&self.board, sq, p, mover) {
                                Response { consumed: true, outcome: None, ask_role: true }
                            } else {
                                self.promotion = None;
                                Response { consumed: true, outcome: None, ask_role: false }
                            }
                        } else {
                            Response { consumed: true, outcome: None, ask_role: false }
                        }
                    },
                    None => Response { consumed: true, outcome: None, ask_role: false },
                }
            },
            Selection::OriginSelected(from) => {
                let ghost pre = *self;
                let moves = legal_moves(&self.board);
                let found = find_matches(&moves, from, sq, self.promotion);
                if found.len() == 1 {
                    let m = found[0];
                    proof {
                        assert(found@.contains(found@[0]));
                        moves@.lemma_filter_contains_rev(intent(from, sq, pre.promotion), m);
                    }
                    let out = self.move_and_reply(m);
                    Response { consumed: true, outcome: Some(out), ask_role: false }
                } else {
                    self.focused = Selection::NoOrigin;
                    Response { consumed: true, outcome: None, ask_role: false }
                }
            },
        }
    }

    /// Handles one input event from the host.
    pub fn on_event(&mut self, e: Input) -> (r: Response)
        requires
            old(self).wf(),
        ensures
            final(self).wf(),
            input_handled(*old(self), *final(self), e, r),
    {
        match e {
            Input::Pointer { x, y, off_x, off_y } => match get_sq(x, y, off_x, off_y) {
                Some(sq) => self.process_focus_change(sq),
                None => Response { consumed: false, outcome: None, ask_role: false },
            },
            Input::Step(d) => {
                match self.highlighted {
                    Some(c) => {
                        self.highlighted = Some(step(c, d));
                    },
                    None => {
                        self.highlighted = Some(Square { file: 0, rank: 0 });
                    },
                }
                Response { consumed: true, outcome: None, ask_role: false }
            },
            Input::Confirm => match self.highlighted {
                Some(c) => self.process_focus_change(c),
                None => {
                    self.highlighted = Some(Square { file: 0, rank: 0 });
                    Response { consumed: true, outcome: None, ask_role: false }
                },
            },
            Input::ChooseRole(role) => {
                self.promotion = Some(role);
                Response { consumed: true, outcome: None, ask_role: false }
            },
        }
    }

    /// What square `sq` shows: the glyph of its piece and its background.
    pub fn render_square(&self, sq: Square) -> (r: Cell)
        requires
            self.wf(),
            sq.wf(),
        ensures
            r == view_cell(*self, sq),
    {
        let glyph = match piece_at(&self.board, sq) {
            Some(p) => Some(piece_to_char(p)),
            None => None,
        };
        let origin = match self.focused {
            Selection::OriginSelected(s) => Some(s),
            Selection::NoOrigin => None,
        };
        Cell { glyph, background: shade(sq, origin, self.highlighted) }
    }

    /// The 64 squares as they show, in index order (`file + 8 * rank`).
    pub fn draw(&self) -> (r: Vec<Cell>)
        requires
            self.wf(),
        ensures
            r@.len() == 64,
            forall|i: int| 0 <= i < 64 ==> #[trigger] r@[i] == view_cell(*self, Square::from_index_spec(i)),
    {
        let mut out: Vec<Cell> = Vec::new();
        let mut i: u8 = 0;
        while i < 64
            invariant
                i <= 64,
                self.wf(),
                out@.len() == i,
                forall|k: int| 0 <= k < i ==> #[trigger] out@[k] == view_cell(*self, Square::from_index_spec(k)),
            decreases 64 - i,
        {
            let c = self.render_square(Square::from_index(i));
            out.push(c);
            i = i + 1;
        }
        out
    }

    /// The current selection.
    pub fn current_selection(&self) -> (r: Selection)
        ensures
            r == self.selection(),
    {
        self.focused
    }

    /// The keyboard cursor, once navigation has begun.
    pub fn cursor_square(&self) -> (r: Option<Square>)
        ensures
            r == self.cursor(),
    {
        self.highlighted
    }

    /// The promotion role chosen and not yet used.
    pub fn chosen_role(&self) -> (r: Option<Role>)
        ensures
            r == self.pending_role(),
    {
        self.promotion
    }

    /// The piece on a square.
    pub fn piece_on(&self, sq: Square) -> (r: Option<Piece>)
        requires
            sq.wf(),
        ensures
            r == piece_of(self.position(), sq),
    {
        piece_at(&self.board, sq)
    }

    /// The side to move.
    pub fn side_to_move(&self) -> (r: Side)
        ensures
            r == turn_of(self.position()),
    {
        turn(&self.board)
    }

    /// The legal moves of the side to move, in the engine's order.
    pub fn moves(&self) -> (r: Vec<Candidate>)
        ensures
            r@ == legal_moves_of(self.position()),
    {
        legal_moves(&self.board)
    }
}

fn same_origin(m: &Candidate, from: Square) -> (r: bool)
    ensures
        r == (m.from == Some(from)),
{
    match m.from {
        Some(f) => f.file == from.file && f.rank == from.rank,
        None => false,
    }
}

fn intends_exec(m: &Candidate, from: Square, to: Square, role: Option<Role>) -> (r: bool)
    ensures
        r == intends(*m, from, to, role),
{
    let role_fits = match role {
        None => true,
        Some(want) => match m.promotion {
            Some(got) => got == want,
            None => false,
        },
    };
    same_origin(m, from) && m.to == to && role_fits
}

/// The moves of `moves` that fit the entered origin, destination and role.
fn find_matches(moves: &Vec<Candidate>, from: Square, to: Square, role: Option<Role>) -> (r: Vec<Candidate>)
    ensures
        r@ == moves@.filter(intent(from, to, role)),
{
    let mut found: Vec<Candidate> = Vec::new();
    let mut i: usize = 0;
    while i < moves.len()
        invariant
            i <= moves@.len(),
            found@ == moves@.take(i as int).filter(intent(from, to, role)),
        decreases moves.len() - i,
    {
        proof {
            reveal(Seq::filter);
            assert(moves@.take(i + 1).drop_last() =~= moves@.take(i as int));
            assert(moves@.take(i + 1).last() == moves@[i as int]);
        }
        if intends_exec(&moves[i], from, to, role) {
            found.push(moves[i]);
        }
        i = i + 1;
    }
    assert(moves@.take(i as int) =~= moves@);
    found
}

/// Whether choosing `sq`, holding `p` of the side to move, opens the
/// promotion dialog.
fn promotes_from(c: &shakmaty::Chess, sq: Square, p: Piece, mover: Side) -> (r: bool)
    requires
        sq.wf(),
        piece_of(*c, sq) == Some(p),
        mover == turn_of(*c),
    ensures
        r == triggers_promotion(*c, sq),
{
    let rank: u8 = match mover {
        Side::White => 6,
        Side::Black => 1,
    };
    if p.role != Role::Pawn || sq.rank != rank {
        return false;
    }
    let moves = legal_moves(c);
    let mut i: usize = 0;
    while i < moves.len()
        invariant
            i <= moves@.len(),
            moves@ == legal_moves_of(*c),
            sq.rank == pre_promotion_rank(turn_of(*c)),
            piece_of(*c, sq) == Some(p),
            p.role == Role::Pawn,
            forall|k: int| 0 <= k < i ==> !((#[trigger] moves@[k]).from == Some(sq) && moves@[k].promotion is Some),
        decreases moves.len() - i,
    {
        if same_origin(&moves[i], sq) && moves[i].promotion.is_some() {
            assert(legal_moves_of(*c)[i as int].from == Some(sq));
            return true;
        }
        i = i + 1;
    }
    false
}

} // verus!
