//! The eight compass directions in which a ray can leave a square.

use crate::square::Square;
use vstd::prelude::*;

verus! {

/// All eight compass directions, clockwise from north. North is the way
/// from rank 1 towards rank 8 and east the way from file A towards file H.
#[derive(Clone, Copy, Debug, PartialEq, Eq, Structural)]
pub enum Dir {
    Nort,
    Noea,
    East,
    Soea,
    Sout,
    Sowe,
    West,
    Nowe,
}

impl Dir {
    /// How one step in this direction changes the rank: 1 northwards,
    /// -1 southwards, 0 along a rank.
    pub open spec fn rank_step(&self) -> int {
        match self {
            Dir::Nort | Dir::Noea | Dir::Nowe => 1,
            Dir::East | Dir::West => 0,
            Dir::Sout | Dir::Soea | Dir::Sowe => -1,
        }
    }

    /// How one step in this direction changes the file: 1 eastwards,
    /// -1 westwards, 0 along a file.
    pub open spec fn file_step(&self) -> int {
        match self {
            Dir::East | Dir::Noea | Dir::Soea => 1,
            Dir::Nort | Dir::Sout => 0,
            Dir::West | Dir::Nowe | Dir::Sowe => -1,
        }
    }

    /// How one step in this direction changes the number of a square: eight
    /// for each rank gained plus one for each file gained.
    pub open spec fn delta_spec(&self) -> int {
        8 * self.rank_step() + self.file_step()
    }

    /// Whether a step in this direction lowers the number of a square.
    pub open spec fn neg_spec(&self) -> bool {
        self.delta_spec() < 0
    }

    /// Whether a step in this direction raises the number of a square.
    pub open spec fn pos_spec(&self) -> bool {
        self.delta_spec() > 0
    }

    /// Returns the amount by which one step in this direction shifts a bit
    /// index: 8 north, 9 north-east, 1 east, -7 south-east, -8 south,
    /// -9 south-west, -1 west, 7 north-west.
    pub fn delta(&self) -> (r: i8)
        ensures
            r == self.delta_spec(),
            r != 0,
    {
        match self {
            Dir::Nort => 8,
            Dir::Noea => 9,
            Dir::East => 1,
            Dir::Soea => -7,
            Dir::Sout => -8,
            Dir::Sowe => -9,
            Dir::West => -1,
            Dir::Nowe => 7,
        }
    }

    /// Tells whether this direction shifts towards lower square numbers:
    /// true for west, south, south-west and south-east.
    #[verifier::when_used_as_spec(neg_spec)]
    pub fn neg(&self) -> (r: bool)
        ensures
            r == self.neg_spec(),
            r <==> *self == Dir::West || *self == Dir::Sout || *self == Dir::Sowe || *self
                == Dir::Soea,
    {
        match *self {
            Dir::West | Dir::Sout | Dir::Sowe | Dir::Soea => true,
            _ => false,
        }
    }

    /// Tells whether this direction shifts towards higher square numbers:
    /// true for north, north-east, east and north-west.
    #[verifier::when_used_as_spec(pos_spec)]
    pub fn pos(&self) -> (r: bool)
        ensures
            r == self.pos_spec(),
            r <==> *self == Dir::Nort || *self == Dir::Noea || *self == Dir::East || *self
                == Dir::Nowe,
    {
        match *self {
            Dir::West | Dir::Sout | Dir::Sowe | Dir::Soea => false,
            _ => true,
        }
    }

    /// Every direction is either positive or negative, and never both.
    pub proof fn lemma_pos_neg_partition(d: Dir)
        ensures
            d.neg() == !d.pos(),
    {
    }

    /// North, north-east, east and north-west are the positive directions;
    /// south, south-west, west and south-east are the negative ones.
    pub proof fn lemma_pos_neg_members(d: Dir)
        ensures
            d.pos() <==> d == Dir::Nort || d == Dir::Noea || d == Dir::East || d == Dir::Nowe,
            d.neg() <==> d == Dir::Sout || d == Dir::Sowe || d == Dir::West || d == Dir::Soea,
    {
    }

    /// A square that lies one step from `from` in direction `d` has the
    /// number of `from` plus the delta of `d`.
    pub proof fn lemma_delta_steps(from: Square, d: Dir, to: Square)
        requires
            to.rank() == from.rank() + d.rank_step(),
            to.file() == from.file() + d.file_step(),
        ensures
            to.encoding() == from.encoding() + d.delta_spec(),
    {
        Square::lemma_rank_file(from);
        Square::lemma_rank_file(to);
    }
}

} // verus!
