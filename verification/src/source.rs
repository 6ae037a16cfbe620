//! Where the next piece comes from.
//!
//! A byte is drawn at random and its remainder on division by 6 picks one
//! of six piece types. The seventh type, [`PieceType::SShape`], is never
//! drawn.

use crate::shape::PieceType;
use vstd::prelude::*;

verus! {

/// The piece type that a drawn byte stands for.
pub open spec fn drawn_type(draw: u8) -> PieceType {
    let pick = draw % 6;
    if pick == 0 {
        PieceType::Square2x2
    } else if pick == 1 {
        PieceType::Bar
    } else if pick == 2 {
        PieceType::TShape
    } else if pick == 3 {
        PieceType::JBend
    } else if pick == 4 {
        PieceType::ZShape
    } else {
        PieceType::LBend
    }
}

/// Whether a piece type can come out of a draw.
pub open spec fn can_be_drawn(kind: PieceType) -> bool {
    exists|draw: u8| kind == drawn_type(draw)
}

/// A byte from `rand::random::<u8>()`, which takes it from the generator
/// that `rand` keeps for each thread.
///
/// Nothing is claimed about the byte: two calls may give any two bytes.
/// The generator seeds itself from the operating system when a thread first
/// uses it and again from time to time, and `rand` ends the program if the
/// system has no entropy to give then.
#[verifier::external_body]
pub(crate) fn random_byte() -> (byte: u8) {
    rand::random::<u8>()
}

/// The piece type that a drawn byte stands for.
pub fn piece_type_for(draw: u8) -> (kind: PieceType)
    ensures
        kind == drawn_type(draw),
{
    match draw % 6 {
        0 => PieceType::Square2x2,
        1 => PieceType::Bar,
        2 => PieceType::TShape,
        3 => PieceType::JBend,
        4 => PieceType::ZShape,
        _ => PieceType::LBend,
    }
}

/// Draws the type of the next piece at random.
pub fn next_piece_type() -> (kind: PieceType)
    ensures
        can_be_drawn(kind),
{
    piece_type_for(random_byte())
}

/// The types that can be drawn are all but [`PieceType::SShape`].
pub proof fn lemma_drawn_types(kind: PieceType)
    ensures
        can_be_drawn(kind) <==> kind != PieceType::SShape,
{
    assert(drawn_type(0) == PieceType::Square2x2);
    assert(drawn_type(1) == PieceType::Bar);
    assert(drawn_type(2) == PieceType::TShape);
    assert(drawn_type(3) == PieceType::JBend);
    assert(drawn_type(4) == PieceType::ZShape);
    assert(drawn_type(5) == PieceType::LBend);
}

} // verus!
