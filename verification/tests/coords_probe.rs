use chess_bridge::coords::to_engine;
use chess_bridge::coords::to_ui;
use chess_bridge::game::ChessGame;
use chess_bridge::model::Color;
use chess_bridge::model::MoveProbe;
use chess_bridge::model::PieceKind;

#[test]
fn round_trip_all_squares() {
    for row in 0..8usize {
        for col in 0..8usize {
            let (file, rank) = to_engine(row, col);
            assert_eq!(to_ui(file, rank), (row, col));
        }
    }
}

#[test]
fn transform_is_a_bijection() {
    let mut seen = [[false; 8]; 8];
    for row in 0..8usize {
        for col in 0..8usize {
            let (file, rank) = to_engine(row, col);
            assert!((1..=8).contains(&file) && (1..=8).contains(&rank));
            assert!(!seen[(file - 1) as usize][(rank - 1) as usize]);
            seen[(file - 1) as usize][(rank - 1) as usize] = true;
        }
    }
    assert!(seen.iter().all(|f| f.iter().all(|&hit| hit)));
}

#[test]
fn transform_of_e2() {
    assert_eq!(to_engine(6, 4), (5, 2));
    assert_eq!(to_ui(5, 2), (6, 4));
}

#[test]
fn black_promotion_reaches_rank_one() {
    let mut g = ChessGame::from_fen("7k/8/8/8/8/8/p7/7K b - - 0 1").unwrap();
    assert!(g.is_promotion_move(6, 0, 7, 0));
    assert!(g.make_promotion_move(6, 0, 7, 0, "queen"));
    let state = g.get_game_state();
    assert_eq!(state.board[7][0].as_deref(), Some("BlackQueen"));
}

#[test]
fn load_check_test_position_returns_its_fen() {
    let mut g = ChessGame::new();
    let fen = g.load_check_test_position().unwrap();
    assert_eq!(fen, "rnbqkb1r/pppp1ppp/5n2/4p3/2B1P3/8/PPPP1PPP/RNBQK1NR w KQkq - 2 3");
    assert_eq!(g.get_fen(), fen);
}

#[test]
fn debug_check_moves_finds_bishop_takes_f7() {
    let g = ChessGame::new();
    let reports = g.debug_check_moves(
        "rnbqkb1r/pppp1ppp/5n2/4p3/2B1P3/8/PPPP1PPP/RNBQK1NR w KQkq - 2 3",
    );
    let bxf7 = reports
        .iter()
        .find(|r| r.from_file == 3 && r.from_rank == 4 && r.to_file == 6 && r.to_rank == 7)
        .expect("Bxf7+ should be reported as check-giving");
    let piece = bxf7.piece.expect("the moving piece is known");
    assert_eq!(piece.color, Color::White);
    assert_eq!(piece.kind, PieceKind::Bishop);
    // The probe never touches the live session.
    assert_eq!(g.get_fen(), "rnbqkbnr/pppppppp/8/8/8/8/PPPPPPPP/RNBQKBNR w KQkq - 0 1");
}

#[test]
fn debug_check_moves_rejected_position_is_empty() {
    let g = ChessGame::new();
    assert!(g.debug_check_moves("not a position").is_empty());
}

#[test]
fn probe_specific_move_outcomes() {
    let mut g = ChessGame::new();
    g.load_check_test_position().unwrap();
    assert_eq!(
        g.test_specific_check_move(3, 4, 6, 7),
        MoveProbe::Applied { gives_check: true }
    );
    // g1-f3 is legal but gives no check.
    assert_eq!(
        g.test_specific_check_move(7, 1, 6, 3),
        MoveProbe::Applied { gives_check: false }
    );
    // a3 holds no piece.
    assert_eq!(g.test_specific_check_move(1, 3, 1, 4), MoveProbe::NoPiece);
    // a2-a5 is not legal.
    assert_eq!(g.test_specific_check_move(1, 2, 1, 5), MoveProbe::NotLegal);
    // Probing left the live board alone.
    assert_eq!(
        g.get_fen(),
        "rnbqkb1r/pppp1ppp/5n2/4p3/2B1P3/8/PPPP1PPP/RNBQK1NR w KQkq - 2 3"
    );
}
