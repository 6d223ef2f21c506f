use schack::coords::to_engine_coords;
use schack::engine::{EngineCommand, EngineView, GameState, PromotionChoice};
use schack::interaction::{square_at, AppState};
use schack::pieces::{PieceId, PieceKind, Side};

fn empty_view(active: Side) -> EngineView {
    EngineView { board: vec![None; 64], active, state: GameState::InProgress, moves: None }
}

fn place(view: &mut EngineView, sq: (u8, u8), kind: PieceKind, side: Side) {
    let pos = to_engine_coords(&sq);
    let i = (pos.rank as usize - 1) * 8 + (pos.file as usize - 1);
    view.board[i] = Some(PieceId { kind, side });
}

fn with_moves(view: &EngineView, moves: &[&str]) -> EngineView {
    EngineView {
        board: view.board.clone(),
        active: view.active,
        state: view.state,
        moves: if moves.is_empty() {
            None
        } else {
            Some(moves.iter().map(|m| m.to_string()).collect())
        },
    }
}

/// Pixel in the middle of a grid cell.
fn centre(sq: (u8, u8)) -> (i32, i32) {
    (sq.0 as i32 * 90 + 45, sq.1 as i32 * 90 + 45)
}

fn click(state: &mut AppState, sq: (u8, u8), view: &EngineView) -> Vec<EngineCommand> {
    let (x, y) = centre(sq);
    assert!(state.is_well_formed());
    assert!(view.is_well_formed());
    state.handle_pointer_release(x, y, view)
}

fn mv(from: &str, to: &str) -> EngineCommand {
    EngineCommand::Move { from: from.to_string(), to: to.to_string() }
}

#[test]
fn fresh_state_is_initial() {
    let st = AppState::new();
    assert!(st.legal_destinations().is_empty());
    assert_eq!(st.previous_click(), None);
    assert!(!st.is_promoting());
    assert_eq!(st.pending_move().from, "");
    assert_eq!(st.pending_move().to, "");
    assert!(st.captures().sequence_for(Side::White).is_empty());
    assert!(st.captures().sequence_for(Side::Black).is_empty());
    assert!(st.is_well_formed());
}

#[test]
fn pixel_to_square() {
    assert_eq!(square_at(0, 0), (0, 0));
    assert_eq!(square_at(89, 89), (0, 0));
    assert_eq!(square_at(90, 0), (1, 0));
    assert_eq!(square_at(719, 719), (7, 7));
    assert_eq!(square_at(405, 585), (4, 6));
}

#[test]
fn pawn_e2_to_e4_commits_move() {
    let mut board = empty_view(Side::White);
    place(&mut board, (4, 6), PieceKind::Pawn, Side::White);
    let mut st = AppState::new();
    let cmds = click(&mut st, (4, 6), &with_moves(&board, &["e3", "e4"]));
    assert!(cmds.is_empty());
    assert_eq!(st.previous_click(), Some((4, 6)));
    assert_eq!(st.legal_destinations(), &vec![(4, 5), (4, 4)]);
    assert!(st.is_legal_destination((4, 4)));
    let cmds = click(&mut st, (4, 4), &with_moves(&board, &[]));
    assert_eq!(cmds, vec![mv("e2", "e4")]);
    assert!(st.legal_destinations().is_empty());
    assert_eq!(st.previous_click(), None);
    assert!(st.captures().sequence_for(Side::White).is_empty());
    assert!(st.captures().sequence_for(Side::Black).is_empty());
    assert!(!st.is_promoting());
}

#[test]
fn second_click_on_same_square_changes_nothing() {
    let mut board = empty_view(Side::White);
    place(&mut board, (1, 7), PieceKind::Knight, Side::White);
    let mut st = AppState::new();
    click(&mut st, (1, 7), &with_moves(&board, &["a3", "c3"]));
    let before_legal = st.legal_destinations().clone();
    let cmds = click(&mut st, (1, 7), &with_moves(&board, &["d2"]));
    assert!(cmds.is_empty());
    assert_eq!(st.legal_destinations(), &before_legal);
    assert_eq!(st.previous_click(), Some((1, 7)));
    assert!(!st.is_promoting());
}

#[test]
fn click_elsewhere_reselects() {
    let mut board = empty_view(Side::White);
    place(&mut board, (1, 7), PieceKind::Knight, Side::White);
    place(&mut board, (6, 7), PieceKind::Knight, Side::White);
    let mut st = AppState::new();
    click(&mut st, (1, 7), &with_moves(&board, &["a3", "c3"]));
    let cmds = click(&mut st, (6, 7), &with_moves(&board, &["f3", "h3"]));
    assert!(cmds.is_empty());
    assert_eq!(st.previous_click(), Some((6, 7)));
    assert_eq!(st.legal_destinations(), &vec![(5, 5), (7, 5)]);
    // an empty square: no destinations, but it is still the selection
    let cmds = click(&mut st, (3, 3), &with_moves(&board, &[]));
    assert!(cmds.is_empty());
    assert_eq!(st.previous_click(), Some((3, 3)));
    assert!(st.legal_destinations().is_empty());
}

#[test]
fn capture_is_recorded_for_the_losing_side() {
    let mut board = empty_view(Side::White);
    place(&mut board, (3, 7), PieceKind::Queen, Side::White);
    place(&mut board, (3, 1), PieceKind::Rook, Side::Black);
    let mut st = AppState::new();
    click(&mut st, (3, 7), &with_moves(&board, &["d2", "d7"]));
    let cmds = click(&mut st, (3, 1), &with_moves(&board, &[]));
    assert_eq!(cmds, vec![mv("d1", "d7")]);
    assert_eq!(
        st.captures().sequence_for(Side::Black),
        &vec![PieceId { kind: PieceKind::Rook, side: Side::Black }]
    );
    assert!(st.captures().sequence_for(Side::White).is_empty());
}

fn promoting_state() -> (AppState, EngineView) {
    let mut board = empty_view(Side::White);
    place(&mut board, (0, 1), PieceKind::Pawn, Side::White);
    let mut st = AppState::new();
    click(&mut st, (0, 1), &with_moves(&board, &["a8"]));
    let cmds = click(&mut st, (0, 0), &with_moves(&board, &[]));
    assert!(cmds.is_empty());
    (st, board)
}

#[test]
fn white_pawn_reaching_top_row_waits_for_choice() {
    let (st, _) = promoting_state();
    assert!(st.is_promoting());
    assert_eq!(st.pending_move().from, "a7");
    assert_eq!(st.pending_move().to, "a8");
}

#[test]
fn black_pawn_reaching_bottom_row_waits_for_choice() {
    let mut board = empty_view(Side::Black);
    place(&mut board, (7, 6), PieceKind::Pawn, Side::Black);
    let mut st = AppState::new();
    click(&mut st, (7, 6), &with_moves(&board, &["h1"]));
    let cmds = click(&mut st, (7, 7), &with_moves(&board, &[]));
    assert!(cmds.is_empty());
    assert!(st.is_promoting());
    assert_eq!(st.pending_move().from, "h2");
    assert_eq!(st.pending_move().to, "h1");
}

#[test]
fn board_clicks_ignored_while_promoting() {
    let (mut st, board) = promoting_state();
    let cmds = click(&mut st, (5, 5), &with_moves(&board, &["f4"]));
    assert!(cmds.is_empty());
    assert!(st.is_promoting());
    assert_eq!(st.pending_move().to, "a8");
}

#[test]
fn knight_band_choice_commits_pending_move() {
    let (mut st, board) = promoting_state();
    let cmds = st.handle_pointer_release(135, 800, &board);
    assert_eq!(
        cmds,
        vec![EngineCommand::SetPromotion(PromotionChoice::Knight), mv("a7", "a8")]
    );
    assert!(!st.is_promoting());
    assert_eq!(st.pending_move().from, "");
    assert_eq!(st.pending_move().to, "");
    assert!(st.legal_destinations().is_empty());
    assert_eq!(st.previous_click(), None);
}

#[test]
fn choice_click_at_x_90_is_the_knight_band() {
    let (mut st, board) = promoting_state();
    let cmds = st.handle_pointer_release(90, 800, &board);
    assert_eq!(cmds, vec![EngineCommand::SetPromotion(PromotionChoice::Knight), mv("a7", "a8")]);
    assert!(!st.is_promoting());
    assert_eq!(st.pending_move().from, "");
    assert_eq!(st.pending_move().to, "");
}

#[test]
fn queen_band_choice_commits_pending_move() {
    let (mut st, board) = promoting_state();
    let cmds = st.handle_pointer_release(45, 800, &board);
    assert_eq!(cmds, vec![EngineCommand::SetPromotion(PromotionChoice::Queen), mv("a7", "a8")]);
}

#[test]
fn choice_click_far_right_in_the_row_sets_no_choice() {
    let (mut st, board) = promoting_state();
    let cmds = st.handle_pointer_release(5000, 800, &board);
    assert_eq!(cmds, vec![mv("a7", "a8")]);
    assert!(!st.is_promoting());
}

#[test]
fn choice_click_outside_bands_still_commits() {
    let (mut st, board) = promoting_state();
    let cmds = st.handle_pointer_release(500, 800, &board);
    assert_eq!(cmds, vec![mv("a7", "a8")]);
    assert!(!st.is_promoting());
}

#[test]
fn below_board_outside_choice_row_keeps_waiting() {
    let (mut st, board) = promoting_state();
    let cmds = st.handle_pointer_release(290, 730, &board);
    assert!(cmds.is_empty());
    assert!(st.is_promoting());
}

#[test]
fn promotion_capture_is_recorded() {
    let mut board = empty_view(Side::White);
    place(&mut board, (1, 1), PieceKind::Pawn, Side::White);
    place(&mut board, (0, 0), PieceKind::Rook, Side::Black);
    let mut st = AppState::new();
    click(&mut st, (1, 1), &with_moves(&board, &["a8", "b8"]));
    click(&mut st, (0, 0), &with_moves(&board, &[]));
    assert!(st.is_promoting());
    assert!(st.captures().sequence_for(Side::Black).is_empty());
    let cmds = st.handle_pointer_release(225, 800, &board);
    assert_eq!(cmds, vec![EngineCommand::SetPromotion(PromotionChoice::Rook), mv("b7", "a8")]);
    assert_eq!(
        st.captures().sequence_for(Side::Black),
        &vec![PieceId { kind: PieceKind::Rook, side: Side::Black }]
    );
}

#[test]
fn checkmate_click_below_board_resets() {
    let mut board = empty_view(Side::White);
    place(&mut board, (3, 7), PieceKind::Queen, Side::White);
    place(&mut board, (3, 1), PieceKind::Rook, Side::Black);
    let mut st = AppState::new();
    click(&mut st, (3, 7), &with_moves(&board, &["d7"]));
    click(&mut st, (3, 1), &with_moves(&board, &[]));
    click(&mut st, (3, 1), &with_moves(&board, &["d8"]));
    assert!(!st.captures().sequence_for(Side::Black).is_empty());
    let mut mated = with_moves(&board, &[]);
    mated.state = GameState::CheckMate;
    let cmds = st.handle_pointer_release(300, 760, &mated);
    assert_eq!(cmds, vec![EngineCommand::NewGame]);
    assert!(st.legal_destinations().is_empty());
    assert_eq!(st.previous_click(), None);
    assert!(!st.is_promoting());
    assert_eq!(st.pending_move().from, "");
    assert!(st.captures().sequence_for(Side::White).is_empty());
    assert!(st.captures().sequence_for(Side::Black).is_empty());
}

#[test]
fn below_board_click_without_checkmate_does_nothing() {
    let board = empty_view(Side::White);
    let mut st = AppState::new();
    let cmds = st.handle_pointer_release(300, 760, &board);
    assert!(cmds.is_empty());
    assert!(st.is_well_formed());
    assert_eq!(st.previous_click(), None);
}

#[test]
fn snapshot_validity() {
    let board = empty_view(Side::White);
    assert!(board.is_well_formed());
    assert!(!with_moves(&board, &["z9"]).is_well_formed());
    let short = EngineView { board: vec![None; 10], active: Side::White, state: GameState::Check, moves: None };
    assert!(!short.is_well_formed());
    let mut b = empty_view(Side::White);
    place(&mut b, (2, 5), PieceKind::Bishop, Side::Black);
    assert_eq!(b.piece_at((2, 5)), Some(PieceId { kind: PieceKind::Bishop, side: Side::Black }));
    assert_eq!(b.piece_at((2, 4)), None);
}

#[test]
fn successive_captures_keep_order() {
    let mut board = empty_view(Side::White);
    place(&mut board, (0, 0), PieceKind::Rook, Side::Black);
    place(&mut board, (1, 0), PieceKind::Knight, Side::Black);
    place(&mut board, (2, 0), PieceKind::Pawn, Side::Black);
    let mut st = AppState::new();
    for (col, code) in [(0u8, "a8"), (1, "b8"), (2, "c8")] {
        let cmd = st.make_move_full(&board, (col, 0), "d1".to_string(), code.to_string());
        assert_eq!(cmd, mv("d1", code));
    }
    assert_eq!(
        st.captures().sequence_for(Side::Black),
        &vec![
            PieceId { kind: PieceKind::Rook, side: Side::Black },
            PieceId { kind: PieceKind::Knight, side: Side::Black },
            PieceId { kind: PieceKind::Pawn, side: Side::Black },
        ]
    );
    assert!(st.captures().sequence_for(Side::White).is_empty());
    // a piece of the side to move on the target is not recorded
    place(&mut board, (3, 0), PieceKind::Bishop, Side::White);
    st.make_move_full(&board, (3, 0), "d1".to_string(), "d8".to_string());
    assert!(st.captures().sequence_for(Side::White).is_empty());
    assert_eq!(st.captures().sequence_for(Side::Black).len(), 3);
}
