use chess_bridge::game::ChessGame;

// White pawn on a7, kings on h1 and h8: a7-a8 is a legal promotion.
const PROMO_FEN: &str = "7k/P7/8/8/8/8/8/7K w - - 0 1";

#[test]
fn is_promotion_move_detects_pawn_on_last_rank() {
    let g = ChessGame::from_fen(PROMO_FEN).unwrap();
    assert!(g.is_promotion_move(1, 0, 0, 0));
}

#[test]
fn is_promotion_move_false_for_plain_pawn_move() {
    let g = ChessGame::new();
    assert!(!g.is_promotion_move(6, 4, 4, 4));
}

#[test]
fn promotion_to_queen() {
    let mut g = ChessGame::from_fen(PROMO_FEN).unwrap();
    assert!(g.make_promotion_move(1, 0, 0, 0, "queen"));
    let state = g.get_game_state();
    assert_eq!(state.board[0][0].as_deref(), Some("WhiteQueen"));
    assert_eq!(state.current_player, "black");
}

#[test]
fn promotion_selector_is_case_insensitive() {
    let mut g = ChessGame::from_fen(PROMO_FEN).unwrap();
    assert!(g.make_promotion_move(1, 0, 0, 0, "KNIGHT"));
    let state = g.get_game_state();
    assert_eq!(state.board[0][0].as_deref(), Some("WhiteKnight"));
}

#[test]
fn promotion_selector_all_caps_bishop() {
    let mut g = ChessGame::from_fen(PROMO_FEN).unwrap();
    assert!(g.make_promotion_move(1, 0, 0, 0, "BISHOP"));
    let state = g.get_game_state();
    assert_eq!(state.board[0][0].as_deref(), Some("WhiteBishop"));
}

#[test]
fn promotion_selector_mixed_case_trailing_p() {
    let mut g = ChessGame::from_fen(PROMO_FEN).unwrap();
    assert!(g.make_promotion_move(1, 0, 0, 0, "BishoP"));
    let state = g.get_game_state();
    assert_eq!(state.board[0][0].as_deref(), Some("WhiteBishop"));
}

#[test]
fn promotion_to_rook() {
    let mut g = ChessGame::from_fen(PROMO_FEN).unwrap();
    assert!(g.make_promotion_move(1, 0, 0, 0, "Rook"));
    let state = g.get_game_state();
    assert_eq!(state.board[0][0].as_deref(), Some("WhiteRook"));
}

#[test]
fn promotion_to_bishop() {
    let mut g = ChessGame::from_fen(PROMO_FEN).unwrap();
    assert!(g.make_promotion_move(1, 0, 0, 0, "bishop"));
    let state = g.get_game_state();
    assert_eq!(state.board[0][0].as_deref(), Some("WhiteBishop"));
}

#[test]
fn unrecognized_selector_defaults_to_queen() {
    let mut g = ChessGame::from_fen(PROMO_FEN).unwrap();
    assert!(g.make_promotion_move(1, 0, 0, 0, "archbishop"));
    let state = g.get_game_state();
    assert_eq!(state.board[0][0].as_deref(), Some("WhiteQueen"));
}

#[test]
fn illegal_promotion_rejected() {
    let mut g = ChessGame::from_fen(PROMO_FEN).unwrap();
    let before = g.get_fen();
    // a7 to b8 is no capture and not legal.
    assert!(!g.make_promotion_move(1, 0, 0, 1, "queen"));
    assert_eq!(g.get_fen(), before);
}

#[test]
fn promotion_call_on_plain_move_delegates_to_move_path() {
    let mut g = ChessGame::new();
    assert!(g.make_promotion_move(6, 4, 4, 4, "queen"));
    let state = g.get_game_state();
    assert_eq!(state.board[4][4].as_deref(), Some("WhitePawn"));
    // An illegal plain move through the promotion path still fails.
    let mut h = ChessGame::new();
    assert!(!h.make_promotion_move(6, 4, 3, 4, "queen"));
}

#[test]
fn promotion_from_empty_square_fails() {
    let mut g = ChessGame::from_fen(PROMO_FEN).unwrap();
    let before = g.get_fen();
    assert!(!g.make_promotion_move(3, 3, 0, 0, "queen"));
    assert_eq!(g.get_fen(), before);
}
