//! The two sides of a chess game.

use vstd::prelude::*;

verus! {

/// The colors of pieces.
#[derive(Clone, Copy, Debug, PartialEq, Eq, Structural)]
pub enum Color {
    White,
    Black,
}

impl Color {
    /// The other side.
    pub open spec fn opp_spec(&self) -> Color {
        match self {
            Color::White => Color::Black,
            Color::Black => Color::White,
        }
    }

    /// Offset of this side's occupancy set behind the six piece-kind slots
    /// of a board: 0 for White, 1 for Black.
    pub open spec fn index_spec(&self) -> usize {
        match self {
            Color::White => 0,
            Color::Black => 1,
        }
    }

    /// Returns the opposing side.
    #[verifier::when_used_as_spec(opp_spec)]
    pub fn opp(&self) -> (r: Color)
        ensures
            r == self.opp_spec(),
            r != *self,
    {
        match self {
            Color::White => Color::Black,
            Color::Black => Color::White,
        }
    }

    /// Returns 0 for White and 1 for Black.
    #[verifier::when_used_as_spec(index_spec)]
    pub fn index(&self) -> (r: usize)
        ensures
            r == self.index_spec(),
            r < 2,
    {
        match self {
            Color::White => 0,
            Color::Black => 1,
        }
    }

    /// Taking the opposite twice gives the side one started with.
    pub proof fn lemma_opp_involution(c: Color)
        ensures
            c.opp().opp() == c,
    {
    }

    /// The two sides have different indices, so their occupancy slots never
    /// coincide.
    pub proof fn lemma_index_injective(a: Color, b: Color)
        ensures
            a.index() == b.index() <==> a == b,
    {
    }
}

} // verus!
