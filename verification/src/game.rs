//! The game session: one engine-owned board, driven only through the
//! coordinate transform, the legality gate, the promotion protocol and
//! the snapshot projection.

use crate::coords::engine_in_range;
use crate::coords::to_engine;
use crate::coords::ui_in_range;
use crate::engine::engine_apply_move;
use crate::engine::engine_clone_board;
use crate::engine::engine_in_check;
use crate::engine::engine_is_checkmate;
use crate::engine::engine_is_stalemate;
use crate::engine::engine_legal_moves;
use crate::engine::engine_new_board;
use crate::engine::engine_parse_fen;
use crate::engine::engine_piece_at;
use crate::engine::engine_promote_bishop;
use crate::engine::engine_promote_knight;
use crate::engine::engine_promote_queen;
use crate::engine::engine_promote_rook;
use crate::engine::engine_side_white;
use crate::engine::engine_to_fen;
use crate::engine::mk_move;
use crate::engine::move_result;
use crate::engine::parse_of;
use crate::engine::promo_result;
use crate::engine::spec_fen;
use crate::engine::spec_in_check;
use crate::engine::spec_legal;
use crate::engine::spec_piece;
use crate::engine::spec_side;
use crate::fen::check_fen;
use crate::fen::fen_side_white;
use crate::fen::valid_fen;
use crate::model::CheckReport;
use crate::model::Color;
use crate::model::EngineMove;
use crate::model::GameError;
use crate::model::GameState;
use crate::model::Move;
use crate::model::MoveProbe;
use crate::model::Piece;
use crate::model::PieceKind;
use crate::model::PromoKind;
use crate::model::descriptor;
use crate::model::descriptor_string;
use crate::model::is_promotion;
use crate::selector::sel_kind;
use crate::selector::selector_kind;
use fenex::chess::board::board::Board;
use vstd::prelude::*;

verus! {

/// The standard starting position.
pub open spec fn start_fen() -> Seq<char> {
    "rnbqkbnr/pppppppp/8/8/8/8/PPPPPPPP/RNBQKBNR w KQkq - 0 1"@
}

/// The fixed test position with a bishop on c4 poised to capture f7.
pub open spec fn check_test_fen() -> Seq<char> {
    "rnbqkb1r/pppp1ppp/5n2/4p3/2B1P3/8/PPPP1PPP/RNBQK1NR w KQkq - 2 3"@
}

/// A snapshot cell agrees with the occupant of its square: empty for
/// empty, the descriptor of the piece otherwise.
pub open spec fn cell_matches(cell: Option<String>, p: Option<Piece>) -> bool {
    match (cell, p) {
        (Option::None, Option::None) => true,
        (Option::Some(st), Option::Some(pc)) => st@ == descriptor(pc),
        _ => false,
    }
}

/// A snapshot is the faithful projection of a board: an 8x8 UI-indexed
/// grid of descriptors, the side to move, the status flags recomputed
/// from the live board, and its canonical position string.
pub open spec fn snapshot_matches(b: Board, s: GameState) -> bool {
    &&& s.board@.len() == 8
    &&& (forall|r: int| 0 <= r < 8 ==> (#[trigger] s.board@[r])@.len() == 8)
    &&& (forall|r: int, c: int|
        0 <= r < 8 && 0 <= c < 8 ==> cell_matches(
            #[trigger] s.board@[r]@[c],
            spec_piece(b, c + 1, 8 - r),
        ))
    &&& s.current_player@ == (if spec_side(b) {
        "white"@
    } else {
        "black"@
    })
    &&& s.in_check == spec_in_check(b)
    &&& s.is_checkmate == (spec_in_check(b) && spec_legal(b).len() == 0)
    &&& s.is_stalemate == (!spec_in_check(b) && spec_legal(b).len() == 0)
    &&& s.fen@ == spec_fen(b)
    &&& fen_side_white(s.fen@) == spec_side(b)
}

/// The UI move a matching engine move translates to: the caller's own
/// source square, and the translated destination.
pub open spec fn ui_move_of(m: EngineMove, row: int, col: int) -> Move {
    Move {
        from_row: row as usize,
        from_col: col as usize,
        to_row: (8 - m.to_rank) as usize,
        to_col: (m.to_file - 1) as usize,
    }
}

/// The UI moves offered from a UI square: the legal moves whose source
/// is its engine square, translated back, in the engine's order.
pub open spec fn ui_moves_from(legal: Seq<EngineMove>, row: int, col: int) -> Seq<Move>
    decreases legal.len(),
{
    if legal.len() == 0 {
        Seq::empty()
    } else {
        let rest = ui_moves_from(legal.drop_last(), row, col);
        let m = legal.last();
        if m.from_file == col + 1 && m.from_rank == 8 - row {
            rest.push(ui_move_of(m, row, col))
        } else {
            rest
        }
    }
}

/// The legal moves that give check when applied speculatively, each with
/// the piece that makes it.
pub open spec fn check_reports_from(b: Board, legal: Seq<EngineMove>) -> Seq<CheckReport>
    decreases legal.len(),
{
    if legal.len() == 0 {
        Seq::empty()
    } else {
        let rest = check_reports_from(b, legal.drop_last());
        let m = legal.last();
        if spec_in_check(
            move_result(b, m.from_file as int, m.from_rank as int, m.to_file as int, m.to_rank as int),
        ) {
            rest.push(
                CheckReport {
                    piece: spec_piece(b, m.from_file as int, m.from_rank as int),
                    from_file: m.from_file,
                    from_rank: m.from_rank,
                    to_file: m.to_file,
                    to_rank: m.to_rank,
                },
            )
        } else {
            rest
        }
    }
}

/// Whether a move list holds the given move.
fn contains_move(v: &Vec<EngineMove>, m: EngineMove) -> (r: bool)
    ensures
        r == v@.contains(m),
{
    let mut i: usize = 0;
    while i < v.len()
        invariant
            i <= v@.len(),
            forall|j: int| 0 <= j < i ==> v@[j] != m,
        decreases v@.len() - i,
    {
        if v[i] == m {
            return true;
        }
        i = i + 1;
    }
    false
}

/// The game session: the sole owner of one engine board. All mutation
/// passes through it, and no caller can reach the board directly.
pub struct ChessGame {
    board: Board,
}

impl View for ChessGame {
    type V = Board;

    /// The engine board a session owns, as a spec-level value; the board
    /// itself stays private, so all mutation passes through the session.
    closed spec fn view(&self) -> Board {
        self.board
    }
}

impl ChessGame {
    /// Start a session at the standard starting position.
    pub fn new() -> (g: ChessGame)
        ensures
            valid_fen(start_fen()) ==> g@ == parse_of(start_fen()),
    {
        if check_fen("rnbqkbnr/pppppppp/8/8/8/8/PPPPPPPP/RNBQKBNR w KQkq - 0 1") {
            match engine_parse_fen("rnbqkbnr/pppppppp/8/8/8/8/PPPPPPPP/RNBQKBNR w KQkq - 0 1") {
                Ok(b) => ChessGame { board: b },
                Err(_) => ChessGame { board: engine_new_board() },
            }
        } else {
            ChessGame { board: engine_new_board() }
        }
    }

    /// Start a session from a supplied position string; a string that is
    /// not accepted is rejected and no session is created.
    pub fn from_fen(fen: &str) -> (r: Result<ChessGame, GameError>)
        ensures
            r is Ok <==> valid_fen(fen@),
            r matches Ok(g) ==> g@ == parse_of(fen@),
    {
        if !check_fen(fen) {
            return Err(GameError::InvalidPosition);
        }
        match engine_parse_fen(fen) {
            Ok(b) => Ok(ChessGame { board: b }),
            Err(_) => Err(GameError::InvalidPosition),
        }
    }

    /// The canonical position string of the current board.
    pub fn get_fen(&self) -> (r: String)
        ensures
            r@ == spec_fen(self@),
            fen_side_white(r@) == spec_side(self@),
    {
        engine_to_fen(&self.board)
    }

    /// The full snapshot of the current position for rendering.
    pub fn get_game_state(&self) -> (s: GameState)
        ensures
            snapshot_matches(self@, s),
    {
        let mut grid: Vec<Vec<Option<String>>> = Vec::new();
        let mut row: usize = 0;
        while row < 8
            invariant
                row <= 8,
                grid@.len() == row,
                forall|r: int| 0 <= r < row ==> (#[trigger] grid@[r])@.len() == 8,
                forall|r: int, c: int|
                    0 <= r < row && 0 <= c < 8 ==> cell_matches(
                        #[trigger] grid@[r]@[c],
                        spec_piece(self@, c + 1, 8 - r),
                    ),
            decreases 8 - row,
        {
            let mut line: Vec<Option<String>> = Vec::new();
            let mut col: usize = 0;
            while col < 8
                invariant
                    row < 8,
                    col <= 8,
                    line@.len() == col,
                    forall|c: int|
                        0 <= c < col ==> cell_matches(
                            #[trigger] line@[c],
                            spec_piece(self@, c + 1, 8 - row),
                        ),
                decreases 8 - col,
            {
                let sq = to_engine(row, col);
                match engine_piece_at(&self.board, sq.0, sq.1) {
                    Some(p) => line.push(Some(descriptor_string(&p))),
                    None => line.push(None),
                }
                col = col + 1;
            }
            grid.push(line);
            row = row + 1;
        }
        let white = engine_side_white(&self.board);
        let current_player = if white {
            String::from_str("white")
        } else {
            String::from_str("black")
        };
        GameState {
            board: grid,
            current_player,
            in_check: engine_in_check(&self.board),
            is_checkmate: engine_is_checkmate(&self.board),
            is_stalemate: engine_is_stalemate(&self.board),
            fen: engine_to_fen(&self.board),
        }
    }

    /// The UI moves available from a UI square: empty when the square is
    /// empty, else the engine's legal moves from that square, translated,
    /// with the caller's own source square carried through unchanged.
    pub fn get_valid_moves(&self, row: usize, col: usize) -> (r: Vec<Move>)
        requires
            ui_in_range(row as int, col as int),
        ensures
            r@ == (if spec_piece(self@, col + 1, 8 - row) is None {
                Seq::<Move>::empty()
            } else {
                ui_moves_from(spec_legal(self@), row as int, col as int)
            }),
            forall|i: int|
                0 <= i < r@.len() ==> ui_in_range(
                    (#[trigger] r@[i]).to_row as int,
                    r@[i].to_col as int,
                ) && ui_in_range(r@[i].from_row as int, r@[i].from_col as int),
    {
        let sq = to_engine(row, col);
        if engine_piece_at(&self.board, sq.0, sq.1).is_none() {
            return Vec::new();
        }
        let legal = engine_legal_moves(&self.board);
        let mut out: Vec<Move> = Vec::new();
        let mut i: usize = 0;
        while i < legal.len()
            invariant
                i <= legal@.len(),
                legal@ == spec_legal(self@),
                forall|j: int| 0 <= j < legal@.len() ==> (#[trigger] legal@[j]).in_range(),
                ui_in_range(row as int, col as int),
                out@ == ui_moves_from(legal@.take(i as int), row as int, col as int),
                forall|k: int|
                    0 <= k < out@.len() ==> ui_in_range(
                        (#[trigger] out@[k]).to_row as int,
                        out@[k].to_col as int,
                    ) && ui_in_range(out@[k].from_row as int, out@[k].from_col as int),
            decreases legal@.len() - i,
        {
            let m = legal[i];
            if (m.from_file as usize) == col + 1 && (m.from_rank as usize) == 8 - row {
                out.push(
                    Move {
                        from_row: row,
                        from_col: col,
                        to_row: 8 - (m.to_rank as usize),
                        to_col: (m.to_file as usize) - 1,
                    },
                );
            }
            proof {
                assert(legal@.take(i + 1).drop_last() =~= legal@.take(i as int));
                assert(legal@.take(i + 1).last() == legal@[i as int]);
            }
            i = i + 1;
        }
        proof {
            assert(legal@.take(legal@.len() as int) =~= legal@);
        }
        out
    }

    /// Apply a UI move. It is applied exactly when the engine's current
    /// legal-move set holds it; otherwise the session is left unchanged,
    /// and the engine is never invoked. A successful application flips
    /// the side to move.
    pub fn make_move(&mut self, from_row: usize, from_col: usize, to_row: usize, to_col: usize) -> (r:
        bool)
        requires
            ui_in_range(from_row as int, from_col as int),
            ui_in_range(to_row as int, to_col as int),
        ensures
            r == spec_legal(old(self)@).contains(
                mk_move(
                    from_col as int + 1,
                    8 - from_row as int,
                    to_col as int + 1,
                    8 - to_row as int,
                ),
            ),
            !r ==> *final(self) == *old(self),
            r ==> final(self)@ == move_result(
                old(self)@,
                from_col as int + 1,
                8 - from_row as int,
                to_col as int + 1,
                8 - to_row as int,
            ),
            r ==> spec_side(final(self)@) == !spec_side(old(self)@),
    {
        let from_sq = to_engine(from_row, from_col);
        let to_sq = to_engine(to_row, to_col);
        let mv = EngineMove {
            from_file: from_sq.0,
            from_rank: from_sq.1,
            to_file: to_sq.0,
            to_rank: to_sq.1,
        };
        let legal = engine_legal_moves(&self.board);
        if !contains_move(&legal, mv) {
            return false;
        }
        engine_apply_move(&mut self.board, from_sq.0, from_sq.1, to_sq.0, to_sq.1)
    }

    /// Apply a UI move through the promotion protocol: classify, certify
    /// against the legal-move set, resolve the selector (defaulting to
    /// queen), and apply the promotion; a move that is no promotion is
    /// delegated to the plain path with full legality certification.
    pub fn make_promotion_move(
        &mut self,
        from_row: usize,
        from_col: usize,
        to_row: usize,
        to_col: usize,
        promotion_piece: &str,
    ) -> (r: bool)
        requires
            ui_in_range(from_row as int, from_col as int),
            ui_in_range(to_row as int, to_col as int),
        ensures
            r == (spec_piece(old(self)@, from_col as int + 1, 8 - from_row as int) is Some
                && spec_legal(old(self)@).contains(
                mk_move(
                    from_col as int + 1,
                    8 - from_row as int,
                    to_col as int + 1,
                    8 - to_row as int,
                ),
            )),
            !r ==> *final(self) == *old(self),
            r ==> spec_side(final(self)@) == !spec_side(old(self)@),
            r && is_promotion(
                spec_piece(old(self)@, from_col as int + 1, 8 - from_row as int),
                8 - to_row as int,
            ) ==> spec_piece(final(self)@, to_col as int + 1, 8 - to_row as int) == (Some(
                Piece {
                    color: spec_piece(
                        old(self)@,
                        from_col as int + 1,
                        8 - from_row as int,
                    )->Some_0.color,
                    kind: sel_kind(promotion_piece@).piece_kind(),
                },
            )),
            r && is_promotion(
                spec_piece(old(self)@, from_col as int + 1, 8 - from_row as int),
                8 - to_row as int,
            ) ==> final(self)@ == promo_result(
                old(self)@,
                from_col as int + 1,
                8 - from_row as int,
                to_col as int + 1,
                8 - to_row as int,
                sel_kind(promotion_piece@),
            ),
            r && is_promotion(
                spec_piece(old(self)@, from_col as int + 1, 8 - from_row as int),
                8 - to_row as int,
            ) ==> spec_piece(final(self)@, from_col as int + 1, 8 - from_row as int) is None,
            r && !is_promotion(
                spec_piece(old(self)@, from_col as int + 1, 8 - from_row as int),
                8 - to_row as int,
            ) ==> final(self)@ == move_result(
                old(self)@,
                from_col as int + 1,
                8 - from_row as int,
                to_col as int + 1,
                8 - to_row as int,
            ),
    {
        let from_sq = to_engine(from_row, from_col);
        let to_sq = to_engine(to_row, to_col);
        let occupant = engine_piece_at(&self.board, from_sq.0, from_sq.1);
        let p = match occupant {
            Some(p) => p,
            None => {
                return false;
            },
        };
        let promo = p.kind == PieceKind::Pawn && ((p.color == Color::White && to_sq.1 == 8) || (
        p.color == Color::Black && to_sq.1 == 1));
        if !promo {
            return self.make_move(from_row, from_col, to_row, to_col);
        }
        let mv = EngineMove {
            from_file: from_sq.0,
            from_rank: from_sq.1,
            to_file: to_sq.0,
            to_rank: to_sq.1,
        };
        let legal = engine_legal_moves(&self.board);
        if !contains_move(&legal, mv) {
            return false;
        }
        match selector_kind(promotion_piece) {
            PromoKind::Queen => engine_promote_queen(
                &mut self.board,
                from_sq.0,
                from_sq.1,
                to_sq.0,
                to_sq.1,
            ),
            PromoKind::Rook => engine_promote_rook(
                &mut self.board,
                from_sq.0,
                from_sq.1,
                to_sq.0,
                to_sq.1,
            ),
            PromoKind::Bishop => engine_promote_bishop(
                &mut self.board,
                from_sq.0,
                from_sq.1,
                to_sq.0,
                to_sq.1,
            ),
            PromoKind::Knight => engine_promote_knight(
                &mut self.board,
                from_sq.0,
                from_sq.1,
                to_sq.0,
                to_sq.1,
            ),
        }
    }

    /// Whether the piece at the UI source square makes the given move a
    /// promotion: a pawn reaching the terminal rank for its colour. A
    /// side-effect-free probe for the host to decide whether to prompt
    /// for a promotion kind.
    pub fn is_promotion_move(
        &self,
        from_row: usize,
        from_col: usize,
        to_row: usize,
        to_col: usize,
    ) -> (r: bool)
        requires
            ui_in_range(from_row as int, from_col as int),
            ui_in_range(to_row as int, to_col as int),
        ensures
            r == is_promotion(
                spec_piece(self@, from_col as int + 1, 8 - from_row as int),
                8 - to_row as int,
            ),
    {
        let from_sq = to_engine(from_row, from_col);
        let to_sq = to_engine(to_row, to_col);
        match engine_piece_at(&self.board, from_sq.0, from_sq.1) {
            Some(p) => p.kind == PieceKind::Pawn && ((p.color == Color::White && to_sq.1 == 8) || (
            p.color == Color::Black && to_sq.1 == 1)),
            None => false,
        }
    }

    /// Reinitialize the owned board to the standard starting position,
    /// in place; the session identity remains valid.
    pub fn reset(&mut self)
        ensures
            valid_fen(start_fen()) ==> final(self)@ == parse_of(start_fen()),
    {
        let g = ChessGame::new();
        self.board = g.board;
    }

    /// Load the fixed check-test position, returning its position string;
    /// the session is untouched if the string is not accepted.
    pub fn load_check_test_position(&mut self) -> (r: Option<String>)
        ensures
            valid_fen(check_test_fen()) ==> r is Some,
            valid_fen(check_test_fen()) ==> final(self)@ == parse_of(check_test_fen()),
            r matches Some(f) ==> f@ == check_test_fen(),
            !valid_fen(check_test_fen()) ==> r is None && *final(self) == *old(self),
    {
        match ChessGame::from_fen("rnbqkb1r/pppp1ppp/5n2/4p3/2B1P3/8/PPPP1PPP/RNBQK1NR w KQkq - 2 3") {
            Ok(g) => {
                self.board = g.board;
                Some(
                    String::from_str(
                        "rnbqkb1r/pppp1ppp/5n2/4p3/2B1P3/8/PPPP1PPP/RNBQK1NR w KQkq - 2 3",
                    ),
                )
            },
            Err(_) => None,
        }
    }

    /// Probe every legal move of a supplied position speculatively, on a
    /// throwaway copy, and report those that give check; the live session
    /// board is never touched. A rejected position yields no reports.
    pub fn debug_check_moves(&self, fen: &str) -> (r: Vec<CheckReport>)
        ensures
            valid_fen(fen@) ==> r@ == check_reports_from(parse_of(fen@), spec_legal(parse_of(fen@))),
            !valid_fen(fen@) ==> r@ == Seq::<CheckReport>::empty(),
    {
        let b = match ChessGame::from_fen(fen) {
            Ok(g) => g.board,
            Err(_) => {
                return Vec::new();
            },
        };
        let legal = engine_legal_moves(&b);
        let mut out: Vec<CheckReport> = Vec::new();
        let mut i: usize = 0;
        while i < legal.len()
            invariant
                i <= legal@.len(),
                legal@ == spec_legal(b),
                forall|j: int| 0 <= j < legal@.len() ==> (#[trigger] legal@[j]).in_range(),
                out@ == check_reports_from(b, legal@.take(i as int)),
            decreases legal@.len() - i,
        {
            let m = legal[i];
            let mut probe = engine_clone_board(&b);
            proof {
                assert(spec_legal(probe)[i as int] == m);
            }
            let _applied = engine_apply_move(&mut probe, m.from_file, m.from_rank, m.to_file, m.to_rank);
            if engine_in_check(&probe) {
                let piece = engine_piece_at(&b, m.from_file, m.from_rank);
                out.push(
                    CheckReport {
                        piece,
                        from_file: m.from_file,
                        from_rank: m.from_rank,
                        to_file: m.to_file,
                        to_rank: m.to_rank,
                    },
                );
            }
            proof {
                assert(legal@.take(i + 1).drop_last() =~= legal@.take(i as int));
                assert(legal@.take(i + 1).last() == legal@[i as int]);
            }
            i = i + 1;
        }
        proof {
            assert(legal@.take(legal@.len() as int) =~= legal@);
        }
        out
    }

    /// Probe one engine-space move against the live position: report an
    /// empty source square, an illegal move, or the move applied on a
    /// throwaway copy together with whether it gives check.
    pub fn test_specific_check_move(&self, from_x: i8, from_y: i8, to_x: i8, to_y: i8) -> (r:
        MoveProbe)
        requires
            engine_in_range(from_x as int, from_y as int),
            engine_in_range(to_x as int, to_y as int),
        ensures
            spec_piece(self@, from_x as int, from_y as int) is None ==> r
                == MoveProbe::NoPiece,
            spec_piece(self@, from_x as int, from_y as int) is Some && !spec_legal(
                self@,
            ).contains(mk_move(from_x as int, from_y as int, to_x as int, to_y as int)) ==> r
                == MoveProbe::NotLegal,
            spec_piece(self@, from_x as int, from_y as int) is Some && spec_legal(
                self@,
            ).contains(mk_move(from_x as int, from_y as int, to_x as int, to_y as int)) ==> r
                == (MoveProbe::Applied {
                gives_check: spec_in_check(
                    move_result(self@, from_x as int, from_y as int, to_x as int, to_y as int),
                ),
            }),
    {
        let ff = from_x as u8;
        let fr = from_y as u8;
        let tf = to_x as u8;
        let tr = to_y as u8;
        if engine_piece_at(&self.board, ff, fr).is_none() {
            return MoveProbe::NoPiece;
        }
        let mv = EngineMove { from_file: ff, from_rank: fr, to_file: tf, to_rank: tr };
        let legal = engine_legal_moves(&self.board);
        if !contains_move(&legal, mv) {
            return MoveProbe::NotLegal;
        }
        let mut probe = engine_clone_board(&self.board);
        let _applied = engine_apply_move(&mut probe, ff, fr, tf, tr);
        MoveProbe::Applied { gives_check: engine_in_check(&probe) }
    }
}

/// Snapshot freshness: snapshots of two boards with opposite sides to
/// move — as before and after any successful move application — differ
/// both in their position strings and in their side-to-move fields.
pub proof fn lemma_snapshot_freshness(b1: Board, b2: Board, s1: GameState, s2: GameState)
    requires
        snapshot_matches(b1, s1),
        snapshot_matches(b2, s2),
        spec_side(b2) == !spec_side(b1),
    ensures
        s1.fen@ != s2.fen@,
        s1.current_player@ != s2.current_player@,
{
    assert(fen_side_white(s1.fen@) != fen_side_white(s2.fen@));
    reveal_strlit("white");
    reveal_strlit("black");
    assert("white"@[0] == 'w');
    assert("black"@[0] == 'b');
}

} // verus!
