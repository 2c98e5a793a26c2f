//! The trusted boundary to the chess rules engine.
//!
//! The engine owns all chess semantics; this bridge never re-derives
//! them. Each observable of an engine board is given a name: the
//! position string, the side to move, the occupant of a square, the
//! legal-move list and the in-check flag are all functions of the board
//! value alone, and parsing and move application are functions of their
//! arguments alone. Every wrapper states, over those names, exactly
//! what the engine's own source shows.

use crate::coords::engine_in_range;
use crate::fen::fen_side_white;
use crate::fen::valid_fen;
use crate::model::Color;
use crate::model::EngineMove;
use crate::model::Piece;
use crate::model::PieceKind;
use crate::model::PromoKind;
use crate::model::is_promotion;
use fenex::chess::board::board::Board;
use fenex::chess::board::coordinates::Coordinates;
use fenex::chess::piece::piece::Color as FxColor;
use fenex::chess::piece::piece::PieceType as FxType;
use vstd::prelude::*;

verus! {

#[verifier::external_type_specification]
#[verifier::external_body]
pub struct ExBoard(Board);

/// The canonical position string of a board.
pub uninterp spec fn spec_fen(b: Board) -> Seq<char>;

/// Whether White is the side to move on a board.
pub uninterp spec fn spec_side(b: Board) -> bool;

/// The occupant of the square at the given engine file and rank.
pub uninterp spec fn spec_piece(b: Board, file: int, rank: int) -> Option<Piece>;

/// The engine's legal-move list for the side to move, in the engine's
/// own enumeration order.
pub uninterp spec fn spec_legal(b: Board) -> Seq<EngineMove>;

/// Whether the side to move stands in check.
pub uninterp spec fn spec_in_check(b: Board) -> bool;

/// The board that parsing an accepted position string yields.
pub uninterp spec fn parse_of(fen: Seq<char>) -> Board;

/// The board that applying the given legal move yields.
pub uninterp spec fn move_result(b: Board, ff: int, fr: int, tf: int, tr: int) -> Board;

/// The board that applying the given legal move with the given promotion
/// kind yields. All four promotion operations run through one engine
/// function, a pure function of board, move and kind.
pub uninterp spec fn promo_result(
    b: Board,
    ff: int,
    fr: int,
    tf: int,
    tr: int,
    kind: PromoKind,
) -> Board;

/// The engine-space move with the given source and destination.
pub open spec fn mk_move(ff: int, fr: int, tf: int, tr: int) -> EngineMove {
    EngineMove { from_file: ff as u8, from_rank: fr as u8, to_file: tf as u8, to_rank: tr as u8 }
}

/// Relies on fenex's `Board::from_fen`. For a position string in the
/// standard shape that `valid_fen` demands, every error return and
/// every out-of-bounds write of the parser is unreachable, so parsing
/// succeeds; the parser is a pure function of the string, and it sets
/// the side to move from the field after the first space.
#[verifier::external_body]
pub(crate) fn engine_parse_fen(fen: &str) -> (r: Result<Board, &'static str>)
    requires
        valid_fen(fen@),
    ensures
        r is Ok,
        r matches Ok(b) ==> b == parse_of(fen@) && spec_side(b) == fen_side_white(fen@),
{
    Board::from_fen(fen)
}

/// Relies on fenex's `Board::new`: a board with every square empty and
/// White to move.
#[verifier::external_body]
pub(crate) fn engine_new_board() -> (r: Board)
    ensures
        spec_side(r),
        forall|f: int, rk: int|
            engine_in_range(f, rk) ==> (#[trigger] spec_piece(r, f, rk)) is None,
{
    Board::new()
}

/// Relies on fenex's `Board::to_fen`: a pure serialization of the board;
/// its placement field contains no space, so the character after the
/// first space is the side-to-move letter, `w` exactly when White moves.
#[verifier::external_body]
pub(crate) fn engine_to_fen(b: &Board) -> (r: String)
    ensures
        r@ == spec_fen(*b),
        fen_side_white(r@) == spec_side(*b),
{
    b.to_fen()
}

/// Relies on fenex's `Board::get`: the occupant of a square, read
/// without mutation; colour and kind are carried over one for one.
#[verifier::external_body]
pub(crate) fn engine_piece_at(b: &Board, file: u8, rank: u8) -> (r: Option<Piece>)
    requires
        engine_in_range(file as int, rank as int),
    ensures
        r == spec_piece(*b, file as int, rank as int),
{
    b.get(Coordinates::new(file as i8, rank as i8)).map(|p| Piece {
        color: if p.color == FxColor::White { Color::White } else { Color::Black },
        kind: match p.piece_type {
            FxType::Pawn => PieceKind::Pawn,
            FxType::Knight => PieceKind::Knight,
            FxType::Bishop => PieceKind::Bishop,
            FxType::Rook => PieceKind::Rook,
            FxType::Queen => PieceKind::Queen,
            FxType::King => PieceKind::King,
        },
    })
}

/// Relies on the `color_to_move` field of a fenex board.
#[verifier::external_body]
pub(crate) fn engine_side_white(b: &Board) -> (r: bool)
    ensures
        r == spec_side(*b),
{
    b.color_to_move == FxColor::White
}

/// Relies on fenex's `Board::is_in_check`: a read-only query on the
/// side to move.
#[verifier::external_body]
pub(crate) fn engine_in_check(b: &Board) -> (r: bool)
    ensures
        r == spec_in_check(*b),
{
    b.is_in_check()
}

/// Relies on fenex's `Board::is_checkmate`, which its source defines as
/// being in check with an empty legal-move list.
#[verifier::external_body]
pub(crate) fn engine_is_checkmate(b: &Board) -> (r: bool)
    ensures
        r == (spec_in_check(*b) && spec_legal(*b).len() == 0),
{
    b.is_checkmate()
}

/// Relies on fenex's `Board::is_stalemate`, which its source defines as
/// not being in check with an empty legal-move list.
#[verifier::external_body]
pub(crate) fn engine_is_stalemate(b: &Board) -> (r: bool)
    ensures
        r == (!spec_in_check(*b) && spec_legal(*b).len() == 0),
{
    b.is_stalemate()
}

/// Relies on fenex's `Board::generate_legal_moves`: a pure enumeration
/// whose every move lies on the board, its coordinates in 1..=8.
#[verifier::external_body]
pub(crate) fn engine_legal_moves(b: &Board) -> (r: Vec<EngineMove>)
    ensures
        r@ == spec_legal(*b),
        forall|i: int| 0 <= i < r@.len() ==> (#[trigger] r@[i]).in_range(),
{
    b.generate_legal_moves().into_iter().map(
        |(f, t): (Coordinates, Coordinates)|
            EngineMove {
                from_file: f.x as u8,
                from_rank: f.y as u8,
                to_file: t.x as u8,
                to_rank: t.y as u8,
            },
    ).collect()
}

/// Relies on fenex's `Board::apply_move`: it first checks the move
/// against `generate_legal_moves`, so under this precondition it
/// succeeds; the application is a pure function of board and move, and
/// it flips the side to move.
#[verifier::external_body]
pub(crate) fn engine_apply_move(b: &mut Board, ff: u8, fr: u8, tf: u8, tr: u8) -> (r: bool)
    requires
        engine_in_range(ff as int, fr as int),
        engine_in_range(tf as int, tr as int),
        spec_legal(*old(b)).contains(mk_move(ff as int, fr as int, tf as int, tr as int)),
    ensures
        r,
        *final(b) == move_result(*old(b), ff as int, fr as int, tf as int, tr as int),
        spec_side(*final(b)) == !spec_side(*old(b)),
{
    b.apply_move(Coordinates::new(ff as i8, fr as i8), Coordinates::new(tf as i8, tr as i8)).is_ok()
}

/// Relies on fenex's `Board::promote_to_queen`: under the legality
/// precondition it succeeds, the result is a pure function of board,
/// move and kind, the side to move flips, the source square is left
/// empty, and when the moving piece is a pawn reaching its terminal
/// rank the destination receives a queen of that pawn's colour.
#[verifier::external_body]
pub(crate) fn engine_promote_queen(b: &mut Board, ff: u8, fr: u8, tf: u8, tr: u8) -> (r: bool)
    requires
        engine_in_range(ff as int, fr as int),
        engine_in_range(tf as int, tr as int),
        spec_legal(*old(b)).contains(mk_move(ff as int, fr as int, tf as int, tr as int)),
    ensures
        r,
        *final(b) == promo_result(
            *old(b),
            ff as int,
            fr as int,
            tf as int,
            tr as int,
            PromoKind::Queen,
        ),
        spec_side(*final(b)) == !spec_side(*old(b)),
        spec_piece(*final(b), ff as int, fr as int) is None,
        is_promotion(spec_piece(*old(b), ff as int, fr as int), tr as int) ==> spec_piece(
            *final(b),
            tf as int,
            tr as int,
        ) == (Some(
            Piece {
                color: spec_piece(*old(b), ff as int, fr as int)->Some_0.color,
                kind: PieceKind::Queen,
            },
        )),
{
    b.promote_to_queen(Coordinates::new(ff as i8, fr as i8), Coordinates::new(tf as i8, tr as i8)).is_ok()
}

/// Relies on fenex's `Board::promote_to_rook`; as `engine_promote_queen`,
/// leaving a rook.
#[verifier::external_body]
pub(crate) fn engine_promote_rook(b: &mut Board, ff: u8, fr: u8, tf: u8, tr: u8) -> (r: bool)
    requires
        engine_in_range(ff as int, fr as int),
        engine_in_range(tf as int, tr as int),
        spec_legal(*old(b)).contains(mk_move(ff as int, fr as int, tf as int, tr as int)),
    ensures
        r,
        *final(b) == promo_result(
            *old(b),
            ff as int,
            fr as int,
            tf as int,
            tr as int,
            PromoKind::Rook,
        ),
        spec_side(*final(b)) == !spec_side(*old(b)),
        spec_piece(*final(b), ff as int, fr as int) is None,
        is_promotion(spec_piece(*old(b), ff as int, fr as int), tr as int) ==> spec_piece(
            *final(b),
            tf as int,
            tr as int,
        ) == (Some(
            Piece {
                color: spec_piece(*old(b), ff as int, fr as int)->Some_0.color,
                kind: PieceKind::Rook,
            },
        )),
{
    b.promote_to_rook(Coordinates::new(ff as i8, fr as i8), Coordinates::new(tf as i8, tr as i8)).is_ok()
}

/// Relies on fenex's `Board::promote_to_bishop`; as
/// `engine_promote_queen`, leaving a bishop.
#[verifier::external_body]
pub(crate) fn engine_promote_bishop(b: &mut Board, ff: u8, fr: u8, tf: u8, tr: u8) -> (r: bool)
    requires
        engine_in_range(ff as int, fr as int),
        engine_in_range(tf as int, tr as int),
        spec_legal(*old(b)).contains(mk_move(ff as int, fr as int, tf as int, tr as int)),
    ensures
        r,
        *final(b) == promo_result(
            *old(b),
            ff as int,
            fr as int,
            tf as int,
            tr as int,
            PromoKind::Bishop,
        ),
        spec_side(*final(b)) == !spec_side(*old(b)),
        spec_piece(*final(b), ff as int, fr as int) is None,
        is_promotion(spec_piece(*old(b), ff as int, fr as int), tr as int) ==> spec_piece(
            *final(b),
            tf as int,
            tr as int,
        ) == (Some(
            Piece {
                color: spec_piece(*old(b), ff as int, fr as int)->Some_0.color,
                kind: PieceKind::Bishop,
            },
        )),
{
    b.promote_to_bishop(Coordinates::new(ff as i8, fr as i8), Coordinates::new(tf as i8, tr as i8)).is_ok()
}

/// Relies on fenex's `Board::promote_to_knight`; as
/// `engine_promote_queen`, leaving a knight.
#[verifier::external_body]
pub(crate) fn engine_promote_knight(b: &mut Board, ff: u8, fr: u8, tf: u8, tr: u8) -> (r: bool)
    requires
        engine_in_range(ff as int, fr as int),
        engine_in_range(tf as int, tr as int),
        spec_legal(*old(b)).contains(mk_move(ff as int, fr as int, tf as int, tr as int)),
    ensures
        r,
        *final(b) == promo_result(
            *old(b),
            ff as int,
            fr as int,
            tf as int,
            tr as int,
            PromoKind::Knight,
        ),
        spec_side(*final(b)) == !spec_side(*old(b)),
        spec_piece(*final(b), ff as int, fr as int) is None,
        is_promotion(spec_piece(*old(b), ff as int, fr as int), tr as int) ==> spec_piece(
            *final(b),
            tf as int,
            tr as int,
        ) == (Some(
            Piece {
                color: spec_piece(*old(b), ff as int, fr as int)->Some_0.color,
                kind: PieceKind::Knight,
            },
        )),
{
    b.promote_to_knight(Coordinates::new(ff as i8, fr as i8), Coordinates::new(tf as i8, tr as i8)).is_ok()
}

/// Relies on fenex's derived `Clone` for `Board`: a field-for-field copy,
/// equal as a value to the original.
#[verifier::external_body]
pub(crate) fn engine_clone_board(b: &Board) -> (r: Board)
    ensures
        r == *b,
{
    b.clone()
}

} // verus!
