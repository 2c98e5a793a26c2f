use chess_bridge::game::ChessGame;
use chess_bridge::model::GameError;

const START_FEN: &str = "rnbqkbnr/pppppppp/8/8/8/8/PPPPPPPP/RNBQKBNR w KQkq - 0 1";

#[test]
fn new_session_default_position() {
    let g = ChessGame::new();
    assert_eq!(g.get_fen(), START_FEN);
}

#[test]
fn from_fen_round_trips_canonical_string() {
    let fen = "rnbqkb1r/pppp1ppp/5n2/4p3/2B1P3/8/PPPP1PPP/RNBQK1NR w KQkq - 2 3";
    let g = ChessGame::from_fen(fen).unwrap();
    assert_eq!(g.get_fen(), fen);
}

#[test]
fn from_fen_rejects_garbage() {
    assert!(matches!(ChessGame::from_fen("garbage"), Err(GameError::InvalidPosition)));
}

#[test]
fn from_fen_rejects_overfull_rank() {
    // Nine pawns on one rank never reach the engine: the validator
    // rejects the string first.
    assert!(ChessGame::from_fen("ppppppppp/8/8/8/8/8/8/8 w - - 0 1").is_err());
}

#[test]
fn from_fen_rejects_short_en_passant_field() {
    assert!(ChessGame::from_fen("8/8/8/8/8/8/8/8 w - e").is_err());
}

#[test]
fn from_fen_rejects_missing_fields() {
    assert!(ChessGame::from_fen("8/8/8/8/8/8/8/8 w -").is_err());
}

#[test]
fn from_fen_rejects_bad_side_field() {
    assert!(ChessGame::from_fen("8/8/8/8/8/8/8/8 x - - 0 1").is_err());
}

#[test]
fn from_fen_accepts_four_fields() {
    let g = ChessGame::from_fen("8/8/8/8/8/8/8/k6K w - -").unwrap();
    assert_eq!(g.get_fen(), "8/8/8/8/8/8/8/k6K w - - 0 1");
}

#[test]
fn legal_pawn_move_destinations() {
    let g = ChessGame::new();
    let moves = g.get_valid_moves(6, 4);
    assert!(moves.iter().any(|m| m.to_row == 4 && m.to_col == 4));
    assert!(moves.iter().any(|m| m.to_row == 5 && m.to_col == 4));
    assert!(moves.iter().all(|m| m.from_row == 6 && m.from_col == 4));
}

#[test]
fn valid_moves_empty_square_is_empty() {
    let g = ChessGame::new();
    assert!(g.get_valid_moves(3, 3).is_empty());
}

#[test]
fn illegal_move_rejected_and_state_unchanged() {
    let mut g = ChessGame::new();
    let before = g.get_fen();
    assert!(!g.make_move(6, 4, 3, 4));
    assert_eq!(g.get_fen(), before);
}

#[test]
fn legal_move_applies_and_flips_side() {
    let mut g = ChessGame::new();
    let before = g.get_game_state();
    assert!(g.make_move(6, 4, 4, 4));
    let after = g.get_game_state();
    assert_ne!(before.fen, after.fen);
    assert_eq!(before.current_player, "white");
    assert_eq!(after.current_player, "black");
}

#[test]
fn pawn_double_step_exact_fen() {
    let mut g = ChessGame::new();
    assert!(g.make_move(6, 4, 4, 4));
    assert_eq!(g.get_fen(), "rnbqkbnr/pppppppp/8/8/4P3/8/PPPP1PPP/RNBQKBNR b KQkq e3 0 1");
}

#[test]
fn check_after_bishop_takes_f7() {
    let fen = "rnbqkb1r/pppp1ppp/5n2/4p3/2B1P3/8/PPPP1PPP/RNBQK1NR w KQkq - 2 3";
    let mut g = ChessGame::from_fen(fen).unwrap();
    // c4 is row 4, col 2; f7 is row 1, col 5.
    assert!(g.make_move(4, 2, 1, 5));
    let state = g.get_game_state();
    assert!(state.in_check);
    assert_eq!(state.current_player, "black");
}

#[test]
fn snapshot_of_start_position() {
    let g = ChessGame::new();
    let state = g.get_game_state();
    assert_eq!(state.board.len(), 8);
    assert!(state.board.iter().all(|row| row.len() == 8));
    assert_eq!(state.board[0][0].as_deref(), Some("BlackRook"));
    assert_eq!(state.board[0][4].as_deref(), Some("BlackKing"));
    assert_eq!(state.board[6][0].as_deref(), Some("WhitePawn"));
    assert_eq!(state.board[7][4].as_deref(), Some("WhiteKing"));
    assert_eq!(state.board[7][3].as_deref(), Some("WhiteQueen"));
    assert!(state.board[3][3].is_none());
    assert_eq!(state.current_player, "white");
    assert!(!state.in_check);
    assert!(!state.is_checkmate);
    assert!(!state.is_stalemate);
    assert_eq!(state.fen, START_FEN);
}

#[test]
fn checkmate_flag_on_mated_position() {
    // Fool's mate.
    let mut g = ChessGame::new();
    assert!(g.make_move(6, 5, 5, 5));
    assert!(g.make_move(1, 4, 3, 4));
    assert!(g.make_move(6, 6, 4, 6));
    assert!(g.make_move(0, 3, 4, 7));
    let state = g.get_game_state();
    assert!(state.in_check);
    assert!(state.is_checkmate);
    assert!(!state.is_stalemate);
}

#[test]
fn stalemate_flag_on_stalemated_position() {
    // Black king h8, White queen f7, White king g6: Black to move has no
    // legal move and is not in check.
    let g = ChessGame::from_fen("7k/5Q2/6K1/8/8/8/8/8 b - - 0 1").unwrap();
    let state = g.get_game_state();
    assert!(!state.in_check);
    assert!(!state.is_checkmate);
    assert!(state.is_stalemate);
}

#[test]
fn reset_restores_start_position() {
    let mut g = ChessGame::new();
    assert!(g.make_move(6, 4, 4, 4));
    g.reset();
    assert_eq!(g.get_fen(), START_FEN);
}
