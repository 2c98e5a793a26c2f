//! The coordinate transform between UI space (0-indexed row/column,
//! row 0 at the top) and engine space (1-indexed file/rank, rank 8 at
//! the top): `file = col + 1`, `rank = 8 - row`, and its exact inverse.

use vstd::prelude::*;

verus! {

/// A UI square: row and column both in 0..=7.
pub open spec fn ui_in_range(row: int, col: int) -> bool {
    0 <= row < 8 && 0 <= col < 8
}

/// An engine square: file and rank both in 1..=8.
pub open spec fn engine_in_range(file: int, rank: int) -> bool {
    1 <= file <= 8 && 1 <= rank <= 8
}

/// The engine square `(file, rank)` of a UI square.
pub open spec fn engine_of(row: int, col: int) -> (int, int) {
    (col + 1, 8 - row)
}

/// The UI square `(row, col)` of an engine square.
pub open spec fn ui_of(file: int, rank: int) -> (int, int) {
    (8 - rank, file - 1)
}

/// Translate a UI square to the engine square it renders.
pub fn to_engine(row: usize, col: usize) -> (r: (u8, u8))
    requires
        ui_in_range(row as int, col as int),
    ensures
        (r.0 as int, r.1 as int) == engine_of(row as int, col as int),
        engine_in_range(r.0 as int, r.1 as int),
{
    ((col + 1) as u8, (8 - row) as u8)
}

/// Translate an engine square to the UI square that renders it.
pub fn to_ui(file: u8, rank: u8) -> (r: (usize, usize))
    requires
        engine_in_range(file as int, rank as int),
    ensures
        (r.0 as int, r.1 as int) == ui_of(file as int, rank as int),
        ui_in_range(r.0 as int, r.1 as int),
{
    ((8 - rank) as usize, (file - 1) as usize)
}

/// Round trip: translating a UI square to engine space and back yields
/// the same square, for every square of the 8x8 board.
pub proof fn lemma_round_trip(row: int, col: int)
    requires
        ui_in_range(row, col),
    ensures
        ui_of(engine_of(row, col).0, engine_of(row, col).1) == (row, col),
{
}

/// The transform maps every UI square into the engine's 1..=8 domain,
/// and no two UI squares to the same engine square.
pub proof fn lemma_to_engine_injective(r1: int, c1: int, r2: int, c2: int)
    requires
        ui_in_range(r1, c1),
        ui_in_range(r2, c2),
        engine_of(r1, c1) == engine_of(r2, c2),
    ensures
        r1 == r2 && c1 == c2,
{
}

/// Every engine square is reached: it is the image of a UI square in
/// range, namely its own translation back to UI space. Together with
/// injectivity this makes the transform a bijection between the 64 UI
/// squares and the 64 engine squares.
pub proof fn lemma_to_engine_onto(file: int, rank: int)
    requires
        engine_in_range(file, rank),
    ensures
        ui_in_range(ui_of(file, rank).0, ui_of(file, rank).1),
        engine_of(ui_of(file, rank).0, ui_of(file, rank).1) == (file, rank),
{
}

} // verus!
