//! The six kinds of chess piece.

use vstd::prelude::*;

verus! {

/// All chess piece types. A kind has no color of its own.
///
/// The order of declaration is the order of the piece-kind slots of a board.
#[derive(Clone, Copy, Debug, PartialEq, Eq, Structural)]
pub enum Piece {
    Pawn,
    Knight,
    Bishop,
    Rook,
    Queen,
    King,
}

impl Piece {
    /// The slot of a piece kind among the bitboards of a board: Pawn 0,
    /// Knight 1, Bishop 2, Rook 3, Queen 4, King 5.
    pub open spec fn index_spec(&self) -> usize {
        match self {
            Piece::Pawn => 0,
            Piece::Knight => 1,
            Piece::Bishop => 2,
            Piece::Rook => 3,
            Piece::Queen => 4,
            Piece::King => 5,
        }
    }

    /// Returns the slot of this piece kind, a number below 6.
    #[verifier::when_used_as_spec(index_spec)]
    pub fn index(&self) -> (r: usize)
        ensures
            r == self.index_spec(),
            r < 6,
    {
        match self {
            Piece::Pawn => 0,
            Piece::Knight => 1,
            Piece::Bishop => 2,
            Piece::Rook => 3,
            Piece::Queen => 4,
            Piece::King => 5,
        }
    }

    /// Different kinds have different slots.
    pub proof fn lemma_index_injective(a: Piece, b: Piece)
        ensures
            a.index() == b.index() <==> a == b,
    {
    }
}

} // verus!
