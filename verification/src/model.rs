//! Plain data carried across the bridge: piece descriptors as the session
//! reads them from the engine, engine-space moves, and the UI-facing
//! move and snapshot records.

use vstd::prelude::*;

verus! {

/// The colour of a piece, as the session reads it from the engine.
#[derive(Clone, Copy, Debug, PartialEq, Eq, Structural)]
pub enum Color {
    White,
    Black,
}

/// The kind of a piece, as the session reads it from the engine.
#[derive(Clone, Copy, Debug, PartialEq, Eq, Structural)]
pub enum PieceKind {
    Pawn,
    Knight,
    Bishop,
    Rook,
    Queen,
    King,
}

/// A piece standing on a square: its colour and its kind.
#[derive(Clone, Copy, Debug, PartialEq, Eq, Structural)]
pub struct Piece {
    pub color: Color,
    pub kind: PieceKind,
}

/// The four kinds a pawn may promote to.
#[derive(Clone, Copy, Debug, PartialEq, Eq, Structural)]
pub enum PromoKind {
    Queen,
    Rook,
    Bishop,
    Knight,
}

impl PromoKind {
    /// The piece kind that a promotion of this kind leaves on the board.
    pub open spec fn piece_kind(self) -> PieceKind {
        match self {
            PromoKind::Queen => PieceKind::Queen,
            PromoKind::Rook => PieceKind::Rook,
            PromoKind::Bishop => PieceKind::Bishop,
            PromoKind::Knight => PieceKind::Knight,
        }
    }
}

/// A move in engine space: file and rank of the source and of the
/// destination square, each in 1..=8.
#[derive(Clone, Copy, Debug, PartialEq, Eq, Structural)]
pub struct EngineMove {
    pub from_file: u8,
    pub from_rank: u8,
    pub to_file: u8,
    pub to_rank: u8,
}

impl EngineMove {
    /// All four coordinates lie on the board.
    pub open spec fn in_range(self) -> bool {
        &&& 1 <= self.from_file <= 8
        &&& 1 <= self.from_rank <= 8
        &&& 1 <= self.to_file <= 8
        &&& 1 <= self.to_rank <= 8
    }
}

/// A move in UI space: 0-indexed rows and columns, row 0 at the top.
#[derive(Clone, Copy, Debug, PartialEq, Eq, Structural)]
pub struct Move {
    pub from_row: usize,
    pub from_col: usize,
    pub to_row: usize,
    pub to_col: usize,
}

/// The full read-only projection of the game for rendering: the 8x8
/// UI-indexed grid of piece descriptors, the side to move, the status
/// flags, and the canonical position string.
pub struct GameState {
    pub board: Vec<Vec<Option<String>>>,
    pub current_player: String,
    pub in_check: bool,
    pub is_checkmate: bool,
    pub is_stalemate: bool,
    pub fen: String,
}

/// The outcome of probing one engine-space move against the live position
/// without committing it.
#[derive(Clone, Copy, Debug, PartialEq, Eq, Structural)]
pub enum MoveProbe {
    NoPiece,
    NotLegal,
    Applied { gives_check: bool },
}

/// One legal move that gives check, found by speculative application:
/// the moving piece and the engine-space squares.
#[derive(Clone, Copy, Debug, PartialEq, Eq, Structural)]
pub struct CheckReport {
    pub piece: Option<Piece>,
    pub from_file: u8,
    pub from_rank: u8,
    pub to_file: u8,
    pub to_rank: u8,
}

/// The one failure a session constructor or loader reports: the supplied
/// position string was rejected.
#[derive(Clone, Copy, Debug, PartialEq, Eq, Structural)]
pub enum GameError {
    InvalidPosition,
}

/// The descriptor the snapshot grid holds for a piece, colour name first.
pub open spec fn descriptor(p: Piece) -> Seq<char> {
    match (p.color, p.kind) {
        (Color::White, PieceKind::Pawn) => "WhitePawn"@,
        (Color::White, PieceKind::Knight) => "WhiteKnight"@,
        (Color::White, PieceKind::Bishop) => "WhiteBishop"@,
        (Color::White, PieceKind::Rook) => "WhiteRook"@,
        (Color::White, PieceKind::Queen) => "WhiteQueen"@,
        (Color::White, PieceKind::King) => "WhiteKing"@,
        (Color::Black, PieceKind::Pawn) => "BlackPawn"@,
        (Color::Black, PieceKind::Knight) => "BlackKnight"@,
        (Color::Black, PieceKind::Bishop) => "BlackBishop"@,
        (Color::Black, PieceKind::Rook) => "BlackRook"@,
        (Color::Black, PieceKind::Queen) => "BlackQueen"@,
        (Color::Black, PieceKind::King) => "BlackKing"@,
    }
}

/// The descriptor of a piece as an owned string.
pub fn descriptor_string(p: &Piece) -> (r: String)
    ensures
        r@ == descriptor(*p),
{
    match (p.color, p.kind) {
        (Color::White, PieceKind::Pawn) => String::from_str("WhitePawn"),
        (Color::White, PieceKind::Knight) => String::from_str("WhiteKnight"),
        (Color::White, PieceKind::Bishop) => String::from_str("WhiteBishop"),
        (Color::White, PieceKind::Rook) => String::from_str("WhiteRook"),
        (Color::White, PieceKind::Queen) => String::from_str("WhiteQueen"),
        (Color::White, PieceKind::King) => String::from_str("WhiteKing"),
        (Color::Black, PieceKind::Pawn) => String::from_str("BlackPawn"),
        (Color::Black, PieceKind::Knight) => String::from_str("BlackKnight"),
        (Color::Black, PieceKind::Bishop) => String::from_str("BlackBishop"),
        (Color::Black, PieceKind::Rook) => String::from_str("BlackRook"),
        (Color::Black, PieceKind::Queen) => String::from_str("BlackQueen"),
        (Color::Black, PieceKind::King) => String::from_str("BlackKing"),
    }
}

/// The rank a pawn of the given colour promotes on: 8 for White, 1 for Black.
pub open spec fn promo_rank(c: Color) -> int {
    if c == Color::White {
        8
    } else {
        1
    }
}

/// Whether a piece standing on the source square makes a move to the given
/// engine rank a promotion: a pawn reaching the terminal rank for its colour.
pub open spec fn is_promotion(p: Option<Piece>, to_rank: int) -> bool {
    match p {
        Some(pc) => pc.kind == PieceKind::Pawn && to_rank == promo_rank(pc.color),
        None => false,
    }
}

} // verus!
