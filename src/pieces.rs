//! Piece identities: a kind and the side it belongs to.
use vstd::prelude::*;

verus! {

/// The two sides of a game.
#[derive(Clone, Copy, Debug, PartialEq, Eq, Hash, Structural)]
pub enum Side {
    White,
    Black,
}

/// The kinds of chess pieces.
#[derive(Clone, Copy, Debug, PartialEq, Eq, Hash, Structural)]
pub enum PieceKind {
    Pawn,
    Knight,
    Bishop,
    Rook,
    Queen,
    King,
}

/// A piece: its kind and its side. Equality is structural.
#[derive(Clone, Copy, Debug, PartialEq, Eq, Hash, Structural)]
pub struct PieceId {
    pub kind: PieceKind,
    pub side: Side,
}

/// The other side.
pub open spec fn opposite(side: Side) -> Side {
    match side {
        Side::White => Side::Black,
        Side::Black => Side::White,
    }
}

impl Side {
    /// The other side.
    pub fn opposite(self) -> (r: Side)
        ensures
            r == opposite(self),
            r != self,
    {
        match self {
            Side::White => Side::Black,
            Side::Black => Side::White,
        }
    }
}

/// The side a piece belongs to.
pub fn get_piece_colour(piece: &PieceId) -> (r: Side)
    ensures
        r == piece.side,
{
    piece.side
}

/// A pawn that stands on the last row of its own direction of travel: row 0
/// (the top of the screen) for White, row 7 for Black.
pub open spec fn reaches_promotion_row(piece: PieceId, row: u8) -> bool {
    &&& piece.kind == PieceKind::Pawn
    &&& (piece.side == Side::White && row == 0 || piece.side == Side::Black && row == 7)
}

/// Tells whether moving `piece` to grid row `row` is a pawn reaching the
/// row where it must be promoted.
pub fn is_promotion_move(piece: &PieceId, row: u8) -> (r: bool)
    ensures
        r == reaches_promotion_row(*piece, row),
{
    match piece.kind {
        PieceKind::Pawn => match piece.side {
            Side::White => row == 0,
            Side::Black => row == 7,
        },
        _ => false,
    }
}

/// Opposites are involutive: the other side of the other side is the side itself.
pub proof fn lemma_opposite_involutive(side: Side)
    ensures
        opposite(opposite(side)) == side,
        opposite(side) != side,
{
}

} // verus!
