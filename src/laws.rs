//! Properties of the controller that hold over every input.
use vstd::prelude::*;
use crate::board_view::{
    intent, owned_by_mover, square_chosen, triggers_promotion, turn_spec, view_cell, BoardView,
    Response, Selection,
};
use crate::engine::{after_of, checkmate_of, game_over_of, turn_of, Candidate};
use crate::types::{Outcome, Square};

verus! {

/// Choosing a square that holds no piece of the side to move, while no
/// origin is selected, plays nothing, leaves the selection empty and leaves
/// every square showing as before.
pub proof fn lemma_idle_choice(pre: BoardView, post: BoardView, sq: Square, r: Response)
    requires
        square_chosen(pre, post, sq, r),
        pre.selection() == Selection::NoOrigin,
        !owned_by_mover(pre.position(), sq),
    ensures
        r.consumed,
        r.outcome is None,
        post.selection() == Selection::NoOrigin,
        post.position() == pre.position(),
        post.played() == pre.played(),
        forall|s: Square| #[trigger] view_cell(post, s) == view_cell(pre, s),
{
}

/// Choosing as origin a pawn of the side to move one rank short of
/// promoting, with a promoting move available, asks for the promotion role;
/// and a human move played while a role is chosen promotes to that role.
pub proof fn lemma_promotion_role(pre: BoardView, post: BoardView, sq: Square, r: Response)
    requires
        square_chosen(pre, post, sq, r),
    ensures
        pre.selection() == Selection::NoOrigin && owned_by_mover(pre.position(), sq)
            && triggers_promotion(pre.position(), sq) ==> r.ask_role && post.selection()
            == Selection::OriginSelected(sq),
        pre.pending_role() is Some && r.outcome is Some ==> post.played()[pre.played().len() as int].promotion
            == pre.pending_role(),
{
    if pre.pending_role() is Some && r.outcome is Some {
        if let Selection::OriginSelected(from) = pre.selection() {
            let found = crate::board_view::matching(pre.position(), from, sq, pre.pending_role());
            let n = pre.played().len() as int;
            crate::engine::legal_moves_of(pre.position()).lemma_filter_pred(
                intent(from, sq, pre.pending_role()),
                0,
            );
            let m = found[0];
            let plies = post.played().skip(n);
            assert(plies[0] == m);
            assert(post.played()[n] == plies[0]);
        }
    }
}

/// A human turn plays the human's move and then at most one reply: none when
/// the human's move ended the game (a win for the human among such ends), one
/// otherwise, after which the same side is to move as before the turn.
pub proof fn lemma_turn_plies(
    c: shakmaty::Chess,
    m: Candidate,
    plies: Seq<Candidate>,
    after: shakmaty::Chess,
    out: Outcome,
)
    requires
        turn_spec(c, m, plies, after, out),
    ensures
        1 <= plies.len() <= 2,
        plies[0] == m,
        plies.len() == 1 <==> game_over_of(after_of(c, m.mv)),
        plies.len() == 2 ==> turn_of(after) == turn_of(c),
        out == Outcome::HumanWins ==> plies.len() == 1,
        out == Outcome::OpponentWins ==> plies.len() == 2 && checkmate_of(after),
{
}

} // verus!
