//! Sets of squares packed into sixty-four bits.

use crate::square::Square;
use vstd::prelude::*;

verus! {

/// A set of squares held as a 64-bit mask: bit `i` is set exactly when the
/// square with encoding `i` is a member.
///
/// The operators `&`, `|`, `^` and `!` are the set operations. Each returns a
/// new value and leaves its operands as they were.
#[derive(Clone, Copy, Debug, PartialEq, Eq, Structural)]
pub struct Bitboard(pub u64);

/// Mask of the squares on which the pawns of both sides start a game.
pub const PAWN_START: u64 = 0x00FF_0000_0000_FF00;

/// Mask of the squares on which the knights of both sides start a game.
pub const KNIGHT_START: u64 = 0x4200_0000_0000_0042;

/// Mask of the squares on which the bishops of both sides start a game.
pub const BISHOP_START: u64 = 0x2400_0000_0000_0024;

/// Mask of the squares on which the rooks of both sides start a game.
pub const ROOK_START: u64 = 0x8100_0000_0000_0081;

/// Mask of the squares on which the queens start a game.
pub const QUEEN_START: u64 = 0x0800_0000_0000_0008;

/// Mask of the squares on which the kings start a game.
pub const KING_START: u64 = 0x1000_0000_0000_0010;

/// Mask of the squares that White's pieces hold at the start of a game.
pub const WHITE_START: u64 = 0x0000_0000_0000_FFFF;

/// Mask of the squares that Black's pieces hold at the start of a game.
pub const BLACK_START: u64 = 0xFFFF_0000_0000_0000;

/// Mask of the squares that no piece holds at the start of a game.
pub const EMPTY_START: u64 = 0x0000_FFFF_FFFF_0000;

/// Mask of the squares that some piece holds at the start of a game.
pub const OCCUPIED_START: u64 = 0xFFFF_0000_0000_FFFF;

/// Whether bit `i` of `bits` is set.
pub open spec fn bit_is_set(bits: u64, i: u64) -> bool {
    (bits >> i) & 1 == 1
}

impl View for Bitboard {
    type V = Set<Square>;

    /// The squares that are members of this bitboard.
    open spec fn view(&self) -> Set<Square> {
        Set::new(|sq: Square| bit_is_set(self.0, sq.encoding() as u64))
    }
}

impl Bitboard {
    /// The bitboard without members.
    pub open spec fn none() -> Bitboard {
        Bitboard(0)
    }

    /// The bitboard of which every square is a member.
    pub open spec fn all() -> Bitboard {
        Bitboard(0xFFFF_FFFF_FFFF_FFFF)
    }

    /// What `&` computes: the mask with the bits set in both operands.
    pub open spec fn intersection(self, rhs: Bitboard) -> Bitboard {
        Bitboard(self.0 & rhs.0)
    }

    /// What `|` computes: the mask with the bits set in either operand.
    pub open spec fn union(self, rhs: Bitboard) -> Bitboard {
        Bitboard(self.0 | rhs.0)
    }

    /// What `^` computes: the mask with the bits set in exactly one operand.
    pub open spec fn symmetric_difference(self, rhs: Bitboard) -> Bitboard {
        Bitboard(self.0 ^ rhs.0)
    }

    /// What `!` computes: the mask with exactly the other bits set.
    pub open spec fn complement(self) -> Bitboard {
        Bitboard(!self.0)
    }

    /// Tells whether `sq` is a member.
    pub fn contains(&self, sq: Square) -> (r: bool)
        ensures
            r == self@.contains(sq),
    {
        (self.0 >> (sq.to_u16() as u64)) & 1 == 1
    }

    /// The members of an intersection are the common members.
    pub proof fn lemma_intersection_view(a: Bitboard, b: Bitboard)
        ensures
            a.intersection(b)@ == a@.intersect(b@),
    {
        assert forall|sq: Square| a.intersection(b)@.contains(sq) == a@.intersect(b@).contains(sq) by {
            lemma_and_bit(a.0, b.0, sq.encoding() as u64);
        }
        assert(a.intersection(b)@ =~= a@.intersect(b@));
    }

    /// The members of a union are the members of either operand.
    pub proof fn lemma_union_view(a: Bitboard, b: Bitboard)
        ensures
            a.union(b)@ == a@.union(b@),
    {
        assert forall|sq: Square| a.union(b)@.contains(sq) == a@.union(b@).contains(sq) by {
            lemma_or_bit(a.0, b.0, sq.encoding() as u64);
        }
        assert(a.union(b)@ =~= a@.union(b@));
    }

    /// The members of a symmetric difference are the squares that belong to
    /// exactly one operand.
    pub proof fn lemma_symmetric_difference_view(a: Bitboard, b: Bitboard)
        ensures
            a.symmetric_difference(b)@ == a@.difference(b@).union(b@.difference(a@)),
    {
        let both = a@.difference(b@).union(b@.difference(a@));
        assert forall|sq: Square| a.symmetric_difference(b)@.contains(sq) == both.contains(sq) by {
            lemma_xor_bit(a.0, b.0, sq.encoding() as u64);
        }
        assert(a.symmetric_difference(b)@ =~= both);
    }

    /// The members of a complement are the squares that are not members.
    pub proof fn lemma_complement_view(a: Bitboard)
        ensures
            a.complement()@ == a@.complement(),
    {
        assert forall|sq: Square| a.complement()@.contains(sq) == a@.complement().contains(sq) by {
            lemma_not_bit(a.0, sq.encoding() as u64);
        }
        assert(a.complement()@ =~= a@.complement());
    }

    /// The empty mask has no member and the full mask has every square.
    pub proof fn lemma_none_all_view()
        ensures
            Bitboard::none()@ == Set::<Square>::empty(),
            Bitboard::all()@ == Set::<Square>::full(),
    {
        assert forall|sq: Square| !Bitboard::none()@.contains(sq) && Bitboard::all()@.contains(sq) by {
            lemma_const_bit(sq.encoding() as u64);
        }
        assert(Bitboard::none()@ =~= Set::<Square>::empty());
        assert(Bitboard::all()@ =~= Set::<Square>::full());
    }

    /// Two bitboards whose intersection is the empty mask have no member in
    /// common, and the other way round.
    pub proof fn lemma_disjoint_view(a: Bitboard, b: Bitboard)
        ensures
            a.intersection(b) == Bitboard::none() <==> a@.disjoint(b@),
    {
        Self::lemma_intersection_view(a, b);
        Self::lemma_none_all_view();
        if a.intersection(b) == Bitboard::none() {
            assert forall|sq: Square| a@.contains(sq) implies !b@.contains(sq) by {
                assert(!a@.intersect(b@).contains(sq));
            }
        }
        if a@.disjoint(b@) {
            assert(a.intersection(b)@ =~= Bitboard::none()@);
            Self::lemma_view_injective(a.intersection(b), Bitboard::none());
        }
    }

    /// A bitboard is nothing more than its members: two bitboards with the
    /// same members are the same value.
    pub proof fn lemma_view_injective(a: Bitboard, b: Bitboard)
        ensures
            a@ == b@ <==> a == b,
    {
        if a != b {
            let (m, n) = (a.0, b.0);
            assert(m ^ n != 0) by (bit_vector)
                requires
                    m != n,
            ;
            let i = lemma_nonzero_has_bit(m ^ n);
            lemma_xor_bit(a.0, b.0, i);
            Square::lemma_decode_encode(i as u16);
            let sq = Square::from_u16(i as u16).unwrap();
            assert(a@.contains(sq) != b@.contains(sq));
        }
    }
}

impl core::ops::BitAnd for Bitboard {
    type Output = Bitboard;

    /// Intersection: the squares that are members of both operands.
    fn bitand(self, rhs: Bitboard) -> (r: Bitboard)
        ensures
            r == self.intersection(rhs),
            r@ == self@.intersect(rhs@),
    {
        proof {
            Bitboard::lemma_intersection_view(self, rhs);
        }
        Bitboard(self.0 & rhs.0)
    }
}

impl vstd::std_specs::ops::BitAndSpecImpl for Bitboard {
    open spec fn obeys_bitand_spec() -> bool {
        true
    }

    open spec fn bitand_req(self, rhs: Bitboard) -> bool {
        true
    }

    open spec fn bitand_spec(self, rhs: Bitboard) -> Bitboard {
        self.intersection(rhs)
    }
}

impl core::ops::BitOr for Bitboard {
    type Output = Bitboard;

    /// Union: the squares that are members of either operand.
    fn bitor(self, rhs: Bitboard) -> (r: Bitboard)
        ensures
            r == self.union(rhs),
            r@ == self@.union(rhs@),
    {
        proof {
            Bitboard::lemma_union_view(self, rhs);
        }
        Bitboard(self.0 | rhs.0)
    }
}

impl vstd::std_specs::ops::BitOrSpecImpl for Bitboard {
    open spec fn obeys_bitor_spec() -> bool {
        true
    }

    open spec fn bitor_req(self, rhs: Bitboard) -> bool {
        true
    }

    open spec fn bitor_spec(self, rhs: Bitboard) -> Bitboard {
        self.union(rhs)
    }
}

impl core::ops::BitXor for Bitboard {
    type Output = Bitboard;

    /// Symmetric difference: the squares that are members of exactly one
    /// operand.
    fn bitxor(self, rhs: Bitboard) -> (r: Bitboard)
        ensures
            r == self.symmetric_difference(rhs),
            r@ == self@.difference(rhs@).union(rhs@.difference(self@)),
    {
        proof {
            Bitboard::lemma_symmetric_difference_view(self, rhs);
        }
        Bitboard(self.0 ^ rhs.0)
    }
}

impl vstd::std_specs::ops::BitXorSpecImpl for Bitboard {
    open spec fn obeys_bitxor_spec() -> bool {
        true
    }

    open spec fn bitxor_req(self, rhs: Bitboard) -> bool {
        true
    }

    open spec fn bitxor_spec(self, rhs: Bitboard) -> Bitboard {
        self.symmetric_difference(rhs)
    }
}

impl core::ops::Not for Bitboard {
    type Output = Bitboard;

    /// Complement: the squares that are not members of the operand.
    fn not(self) -> (r: Bitboard)
        ensures
            r == self.complement(),
            r@ == self@.complement(),
    {
        proof {
            Bitboard::lemma_complement_view(self);
        }
        Bitboard(!self.0)
    }
}

impl vstd::std_specs::ops::NotSpecImpl for Bitboard {
    open spec fn obeys_not_spec() -> bool {
        true
    }

    open spec fn not_req(self) -> bool {
        true
    }

    open spec fn not_spec(self) -> Bitboard {
        self.complement()
    }
}

proof fn lemma_and_bit(a: u64, b: u64, i: u64)
    by (bit_vector)
    requires
        i < 64,
    ensures
        bit_is_set(a & b, i) <==> bit_is_set(a, i) && bit_is_set(b, i),
{
}

proof fn lemma_or_bit(a: u64, b: u64, i: u64)
    by (bit_vector)
    requires
        i < 64,
    ensures
        bit_is_set(a | b, i) <==> bit_is_set(a, i) || bit_is_set(b, i),
{
}

proof fn lemma_xor_bit(a: u64, b: u64, i: u64)
    by (bit_vector)
    requires
        i < 64,
    ensures
        bit_is_set(a ^ b, i) <==> bit_is_set(a, i) != bit_is_set(b, i),
{
}

proof fn lemma_not_bit(a: u64, i: u64)
    by (bit_vector)
    requires
        i < 64,
    ensures
        bit_is_set(!a, i) <==> !bit_is_set(a, i),
{
}

proof fn lemma_const_bit(i: u64)
    by (bit_vector)
    requires
        i < 64,
    ensures
        !bit_is_set(0, i),
        bit_is_set(0xFFFF_FFFF_FFFF_FFFF, i),
{
}

/// A mask other than zero has a set bit.
proof fn lemma_nonzero_has_bit(x: u64) -> (i: u64)
    requires
        x != 0,
    ensures
        i < 64,
        bit_is_set(x, i),
    decreases x,
{
    if x & 1 == 1 {
        assert(bit_is_set(x, 0)) by (bit_vector)
            requires
                x & 1 == 1,
        ;
        0
    } else {
        let y = x >> 1;
        assert(y != 0 && y < x) by (bit_vector)
            requires
                x != 0,
                x & 1 != 1,
                y == x >> 1,
        ;
        let j = lemma_nonzero_has_bit(y);
        assert(j < 63 && bit_is_set(x, (j + 1) as u64)) by (bit_vector)
            requires
                j < 64,
                bit_is_set(y, j),
                y == x >> 1,
        ;
        (j + 1) as u64
    }
}

} // verus!
