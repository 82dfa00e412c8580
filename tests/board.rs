use tui_chess::board_view::{BoardView, Input, Response, Selection};
use tui_chess::mapper::{get_sq, step};
use tui_chess::opponent::choose_reply;
use tui_chess::render::{piece_to_char, shade, Cell, Shade};
use tui_chess::types::{Direction, Outcome, Piece, Role, Side, Square};

fn sq(file: u8, rank: u8) -> Square {
    Square::new(file, rank)
}

fn click(v: &mut BoardView, file: u8, rank: u8) -> Response {
    v.on_event(Input::Pointer {
        x: file as usize * 3 + 1,
        y: 7 - rank as usize,
        off_x: 0,
        off_y: 0,
    })
}

fn count_pieces(v: &BoardView, side: Side) -> usize {
    let mut n = 0;
    for f in 0..8 {
        for r in 0..8 {
            if let Some(p) = v.piece_on(sq(f, r)) {
                if p.color == side {
                    n += 1;
                }
            }
        }
    }
    n
}

#[test]
fn pawn_double_step_then_reply() {
    let mut v = BoardView::with_seed(7);
    let r = click(&mut v, 4, 1);
    assert!(r.consumed);
    assert_eq!(r.outcome, None);
    assert!(!r.ask_role);
    assert_eq!(v.current_selection(), Selection::OriginSelected(sq(4, 1)));
    let r = click(&mut v, 4, 3);
    assert!(r.consumed);
    assert_eq!(r.outcome, Some(Outcome::Ongoing));
    assert_eq!(v.piece_on(sq(4, 3)), Some(Piece { color: Side::White, role: Role::Pawn }));
    assert_eq!(v.piece_on(sq(4, 1)), None);
    assert_eq!(v.current_selection(), Selection::NoOrigin);
    // the opponent has replied: white is to move again
    assert_eq!(v.side_to_move(), Side::White);
}

#[test]
fn controller_turn_moves_one_piece_of_each_side() {
    let start = BoardView::with_seed(3);
    let mut v = BoardView::with_seed(3);
    click(&mut v, 6, 0);
    let r = click(&mut v, 5, 2);
    assert_eq!(r.outcome, Some(Outcome::Ongoing));
    let mut white_changed = 0;
    let mut black_changed = 0;
    for i in 0..64u8 {
        let s = Square::from_index(i);
        let before = start.piece_on(s);
        let after = v.piece_on(s);
        if before != after {
            let side = before.or(after).unwrap().color;
            if side == Side::White {
                white_changed += 1;
            } else {
                black_changed += 1;
            }
        }
    }
    assert_eq!(white_changed, 2);
    assert_eq!(black_changed, 2);
    assert_eq!(count_pieces(&v, Side::White), 16);
    assert_eq!(count_pieces(&v, Side::Black), 16);
}

#[test]
fn choosing_empty_square_changes_nothing() {
    let mut v = BoardView::with_seed(1);
    let before: Vec<Cell> = v.draw();
    let r = click(&mut v, 4, 4);
    assert!(r.consumed);
    assert_eq!(r.outcome, None);
    assert!(!r.ask_role);
    assert_eq!(v.current_selection(), Selection::NoOrigin);
    assert_eq!(v.draw(), before);
    assert_eq!(v.side_to_move(), Side::White);
}

#[test]
fn choosing_opponent_piece_changes_nothing() {
    let mut v = BoardView::with_seed(1);
    let r = click(&mut v, 4, 6);
    assert!(r.consumed);
    assert_eq!(v.current_selection(), Selection::NoOrigin);
}

#[test]
fn promotion_needs_a_role_then_uses_it() {
    let mut v = BoardView::from_fen("7k/P6p/8/8/8/8/8/K7 w - - 0 1", 5).unwrap();
    let r = click(&mut v, 0, 6);
    assert!(r.ask_role);
    assert_eq!(v.current_selection(), Selection::OriginSelected(sq(0, 6)));
    // destination before any role: four moves fit, none is played
    let r = click(&mut v, 0, 7);
    assert_eq!(r.outcome, None);
    assert_eq!(v.current_selection(), Selection::NoOrigin);
    assert_eq!(v.piece_on(sq(0, 6)), Some(Piece { color: Side::White, role: Role::Pawn }));
    let r = v.on_event(Input::ChooseRole(Role::Knight));
    assert!(r.consumed);
    assert_eq!(v.chosen_role(), Some(Role::Knight));
    let r = click(&mut v, 0, 6);
    assert!(r.ask_role);
    assert_eq!(v.chosen_role(), Some(Role::Knight));
    let r = click(&mut v, 0, 7);
    assert!(r.outcome.is_some());
    assert_eq!(v.piece_on(sq(0, 7)), Some(Piece { color: Side::White, role: Role::Knight }));
    assert_eq!(v.piece_on(sq(0, 6)), None);
    assert_eq!(v.chosen_role(), None);
    assert_eq!(v.current_selection(), Selection::NoOrigin);
}

#[test]
fn other_origin_clears_the_role() {
    let mut v = BoardView::from_fen("7k/P6p/8/8/8/8/8/K7 w - - 0 1", 5).unwrap();
    v.on_event(Input::ChooseRole(Role::Rook));
    let r = click(&mut v, 0, 0);
    assert!(!r.ask_role);
    assert_eq!(v.chosen_role(), None);
}

#[test]
fn cursor_stops_at_file_h() {
    let mut v = BoardView::with_seed(1);
    let r = v.on_event(Input::Step(Direction::Right));
    assert!(r.consumed);
    assert_eq!(v.cursor_square(), Some(sq(0, 0)));
    for _ in 0..7 {
        v.on_event(Input::Step(Direction::Right));
    }
    assert_eq!(v.cursor_square(), Some(sq(7, 0)));
    let r = v.on_event(Input::Step(Direction::Right));
    assert!(r.consumed);
    assert_eq!(v.cursor_square(), Some(sq(7, 0)));
}

#[test]
fn cursor_steps_and_edges() {
    assert_eq!(step(sq(7, 3), Direction::Right), sq(7, 3));
    assert_eq!(step(sq(0, 3), Direction::Left), sq(0, 3));
    assert_eq!(step(sq(2, 7), Direction::Up), sq(2, 7));
    assert_eq!(step(sq(2, 0), Direction::Down), sq(2, 0));
    assert_eq!(step(sq(2, 3), Direction::Right), sq(3, 3));
    assert_eq!(step(sq(2, 3), Direction::Left), sq(1, 3));
    assert_eq!(step(sq(2, 3), Direction::Up), sq(2, 4));
    assert_eq!(step(sq(2, 3), Direction::Down), sq(2, 2));
}

#[test]
fn keyboard_move_with_confirm() {
    let mut v = BoardView::with_seed(2);
    let r = v.on_event(Input::Confirm);
    assert!(r.consumed);
    assert_eq!(v.cursor_square(), Some(sq(0, 0)));
    v.on_event(Input::Step(Direction::Right));
    let r = v.on_event(Input::Confirm);
    assert!(r.consumed);
    assert_eq!(v.current_selection(), Selection::OriginSelected(sq(1, 0)));
    v.on_event(Input::Step(Direction::Up));
    v.on_event(Input::Step(Direction::Up));
    v.on_event(Input::Step(Direction::Right));
    let r = v.on_event(Input::Confirm);
    assert_eq!(r.outcome, Some(Outcome::Ongoing));
    assert_eq!(v.piece_on(sq(2, 2)), Some(Piece { color: Side::White, role: Role::Knight }));
    assert_eq!(v.cursor_square(), Some(sq(2, 2)));
}

#[test]
fn illegal_destination_resets_selection() {
    let mut v = BoardView::with_seed(1);
    click(&mut v, 4, 1);
    let r = click(&mut v, 4, 5);
    assert!(r.consumed);
    assert_eq!(r.outcome, None);
    assert_eq!(v.current_selection(), Selection::NoOrigin);
    assert_eq!(v.piece_on(sq(4, 1)), Some(Piece { color: Side::White, role: Role::Pawn }));
}

#[test]
fn pointer_mapping() {
    assert_eq!(get_sq(12, 6, 0, 0), Some(sq(4, 1)));
    assert_eq!(get_sq(14, 6, 0, 0), Some(sq(4, 1)));
    assert_eq!(get_sq(15, 6, 0, 0), Some(sq(5, 1)));
    assert_eq!(get_sq(0, 0, 0, 0), Some(sq(0, 7)));
    assert_eq!(get_sq(23, 7, 0, 0), Some(sq(7, 0)));
    assert_eq!(get_sq(24, 7, 0, 0), None);
    assert_eq!(get_sq(5, 8, 0, 0), None);
    assert_eq!(get_sq(12, 8, 2, 3), Some(sq(3, 2)));
    assert_eq!(get_sq(1, 8, 2, 3), None);
    assert_eq!(get_sq(10, 2, 2, 3), None);
}

#[test]
fn pointer_off_board_is_ignored() {
    let mut v = BoardView::with_seed(1);
    let r = v.on_event(Input::Pointer { x: 40, y: 2, off_x: 0, off_y: 0 });
    assert!(!r.consumed);
    assert_eq!(r.outcome, None);
}

#[test]
fn mate_by_human_ends_turn() {
    let mut v = BoardView::from_fen("7k/8/6K1/8/8/8/8/R7 w - - 0 1", 9).unwrap();
    click(&mut v, 0, 0);
    let r = click(&mut v, 0, 7);
    assert_eq!(r.outcome, Some(Outcome::HumanWins));
    assert_eq!(v.piece_on(sq(0, 7)), Some(Piece { color: Side::White, role: Role::Rook }));
    assert_eq!(v.piece_on(sq(7, 7)), Some(Piece { color: Side::Black, role: Role::King }));
    assert_eq!(v.side_to_move(), Side::Black);
    assert_eq!(v.moves().len(), 0);
}

#[test]
fn stalemate_by_human_is_a_draw() {
    let mut v = BoardView::from_fen("k7/8/8/8/8/8/8/1Q5K w - - 0 1", 9).unwrap();
    click(&mut v, 1, 0);
    let r = click(&mut v, 1, 5);
    assert_eq!(r.outcome, Some(Outcome::Draw));
    assert_eq!(v.side_to_move(), Side::Black);
}

#[test]
fn bad_fen_is_refused() {
    assert!(BoardView::from_fen("not a position", 1).is_none());
    assert!(BoardView::from_fen("8/8/8/8/8/8/8/8 w - - 0 1", 1).is_none());
}

#[test]
fn reply_is_always_legal() {
    let v = BoardView::with_seed(1);
    let moves = v.moves();
    assert_eq!(moves.len(), 20);
    for seed in 0..200u64 {
        let mut rng = <rand::rngs::StdRng as rand::SeedableRng>::seed_from_u64(seed);
        let m = choose_reply(&moves, &mut rng);
        assert!(moves
            .iter()
            .any(|c| c.from == m.from && c.to == m.to && c.promotion == m.promotion));
    }
}

#[test]
fn seeded_replies_repeat() {
    let mut a = BoardView::with_seed(11);
    let mut b = BoardView::with_seed(11);
    click(&mut a, 3, 1);
    click(&mut a, 3, 3);
    click(&mut b, 3, 1);
    click(&mut b, 3, 3);
    assert_eq!(a.draw(), b.draw());
}

#[test]
fn legal_moves_carry_squares_and_roles() {
    let v = BoardView::from_fen("7k/P6p/8/8/8/8/8/K7 w - - 0 1", 1).unwrap();
    let moves = v.moves();
    let promos: Vec<Option<Role>> = moves
        .iter()
        .filter(|m| m.from == Some(sq(0, 6)))
        .map(|m| m.promotion)
        .collect();
    assert_eq!(promos.len(), 4);
    for r in [Role::Queen, Role::Rook, Role::Bishop, Role::Knight] {
        assert!(promos.contains(&Some(r)));
    }
    assert!(moves.iter().all(|m| m.from != Some(sq(0, 6)) || m.to == sq(0, 7)));
}

#[test]
fn glyphs() {
    assert_eq!(piece_to_char(Piece { color: Side::White, role: Role::King }), '\u{2654}');
    assert_eq!(piece_to_char(Piece { color: Side::Black, role: Role::Pawn }), '\u{265F}');
    assert_eq!(piece_to_char(Piece { color: Side::Black, role: Role::Knight }), '\u{265E}');
    assert_eq!(piece_to_char(Piece { color: Side::White, role: Role::Queen }), '\u{2655}');
}

#[test]
fn shades_in_priority_order() {
    let s = sq(0, 0);
    assert_eq!(shade(s, Some(s), Some(s)), Shade::Origin);
    assert_eq!(shade(s, None, Some(s)), Shade::Cursor);
    assert_eq!(shade(s, Some(sq(1, 1)), None), Shade::Dark);
    assert_eq!(shade(sq(1, 0), None, None), Shade::Light);
}

#[test]
fn draw_shows_pieces_and_highlights() {
    let mut v = BoardView::with_seed(1);
    click(&mut v, 4, 1);
    let cells = v.draw();
    assert_eq!(cells.len(), 64);
    assert_eq!(cells[12], Cell { glyph: Some('\u{2659}'), background: Shade::Origin });
    assert_eq!(cells[4], Cell { glyph: Some('\u{2654}'), background: Shade::Dark });
    assert_eq!(cells[60], Cell { glyph: Some('\u{265A}'), background: Shade::Light });
    assert_eq!(cells[28], Cell { glyph: None, background: Shade::Light });
    assert_eq!(v.render_square(sq(4, 1)), cells[12]);
}

#[test]
fn new_game_has_standard_layout() {
    let v = BoardView::new();
    assert_eq!(v.side_to_move(), Side::White);
    let back = [Role::Rook, Role::Knight, Role::Bishop, Role::Queen, Role::King, Role::Bishop, Role::Knight, Role::Rook];
    for f in 0..8u8 {
        assert_eq!(v.piece_on(sq(f, 0)), Some(Piece { color: Side::White, role: back[f as usize] }));
        assert_eq!(v.piece_on(sq(f, 1)), Some(Piece { color: Side::White, role: Role::Pawn }));
        for r in 2..6u8 {
            assert_eq!(v.piece_on(sq(f, r)), None);
        }
        assert_eq!(v.piece_on(sq(f, 6)), Some(Piece { color: Side::Black, role: Role::Pawn }));
        assert_eq!(v.piece_on(sq(f, 7)), Some(Piece { color: Side::Black, role: back[f as usize] }));
    }
    assert_eq!(v.current_selection(), Selection::NoOrigin);
    assert_eq!(v.cursor_square(), None);
    assert_eq!(v.chosen_role(), None);
}
