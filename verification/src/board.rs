//! The aggregate board: which piece of which side stands on which square.

use crate::bitboard::bit_is_set;
use crate::bitboard::Bitboard;
use crate::bitboard::{
    BISHOP_START, BLACK_START, EMPTY_START, KING_START, KNIGHT_START, OCCUPIED_START, PAWN_START,
    QUEEN_START, ROOK_START, WHITE_START,
};
use crate::color::Color;
use crate::piece::Piece;
use crate::square::Square;
use vstd::prelude::*;

verus! {

/// The main `Board` struct, which contains 10 bitboards.
///
/// The `piece_bb` array first contains bitboards marking the presence of
/// pawns, knights, bishops, rooks, queens and kings respectively, regardless
/// of color. The 7th and 8th boards in the array mark the presence of white
/// and black pieces respectively, which can be intersected with the previous
/// indexed boards to obtain the location of only white or only black pieces.
///
/// The `empty_bb` and `occupied_bb` boards mark the absence of and the
/// presence of pieces, respectively.
///
/// Seen from outside, a board is a partial map from squares to the piece
/// that stands there: see [`Board::view`].
pub struct Board {
    piece_bb: [Bitboard; 8],
    empty_bb: Bitboard,
    occupied_bb: Bitboard,
}

/// The kind of piece that starts a game on the given file of a back rank.
pub open spec fn back_rank_piece(file: nat) -> Piece {
    if file == 0 || file == 7 {
        Piece::Rook
    } else if file == 1 || file == 6 {
        Piece::Knight
    } else if file == 2 || file == 5 {
        Piece::Bishop
    } else if file == 3 {
        Piece::Queen
    } else {
        Piece::King
    }
}

/// The piece that stands on `sq` at the start of a game, if any: White's
/// pieces on the first rank and pawns on the second, Black's pawns on the
/// seventh rank and pieces on the eighth.
pub open spec fn start_occupant(sq: Square) -> Option<(Color, Piece)> {
    if sq.rank() == 0 {
        Some((Color::White, back_rank_piece(sq.file())))
    } else if sq.rank() == 1 {
        Some((Color::White, Piece::Pawn))
    } else if sq.rank() == 6 {
        Some((Color::Black, Piece::Pawn))
    } else if sq.rank() == 7 {
        Some((Color::Black, back_rank_piece(sq.file())))
    } else {
        None
    }
}

/// The position from which a game starts.
pub open spec fn start_position() -> Map<Square, (Color, Piece)> {
    Map::new(|sq: Square| start_occupant(sq) is Some, |sq: Square| start_occupant(sq).unwrap())
}

impl View for Board {
    type V = Map<Square, (Color, Piece)>;

    /// The position: each occupied square with the side and the kind of the
    /// piece on it.
    open spec fn view(&self) -> Map<Square, (Color, Piece)> {
        Map::new(
            |sq: Square| self.occupied()@.contains(sq),
            |sq: Square| (self.color_at(sq), self.kind_at(sq)),
        )
    }
}

impl Board {
    /// The squares that hold a piece of kind `p`, of either side.
    pub closed spec fn kind(self, p: Piece) -> Bitboard {
        self.piece_bb[p.index() as int]
    }

    /// The squares that hold a piece of side `c`.
    pub closed spec fn side(self, c: Color) -> Bitboard {
        self.piece_bb[6 + c.index()]
    }

    /// The squares that hold no piece.
    pub closed spec fn empty(self) -> Bitboard {
        self.empty_bb
    }

    /// The squares that hold a piece.
    pub closed spec fn occupied(self) -> Bitboard {
        self.occupied_bb
    }

    /// The side recorded for `sq`; meaningful where `sq` is occupied.
    pub open spec fn color_at(self, sq: Square) -> Color {
        if self.side(Color::White)@.contains(sq) {
            Color::White
        } else {
            Color::Black
        }
    }

    /// The piece kind recorded for `sq`; meaningful where `sq` is occupied.
    pub open spec fn kind_at(self, sq: Square) -> Piece {
        if self.kind(Piece::Pawn)@.contains(sq) {
            Piece::Pawn
        } else if self.kind(Piece::Knight)@.contains(sq) {
            Piece::Knight
        } else if self.kind(Piece::Bishop)@.contains(sq) {
            Piece::Bishop
        } else if self.kind(Piece::Rook)@.contains(sq) {
            Piece::Rook
        } else if self.kind(Piece::Queen)@.contains(sq) {
            Piece::Queen
        } else {
            Piece::King
        }
    }

    /// The consistency that every board keeps:
    /// the occupied squares are those of White together with those of Black;
    /// the empty squares are all the others;
    /// no square belongs to both sides;
    /// a piece kind marks occupied squares only;
    /// no square holds two kinds;
    /// every occupied square holds some kind.
    pub open spec fn wf(self) -> bool {
        &&& self.occupied() == self.side(Color::White).union(self.side(Color::Black))
        &&& self.empty() == self.occupied().complement()
        &&& self.side(Color::White).intersection(self.side(Color::Black)) == Bitboard::none()
        &&& forall|p: Piece| #[trigger] self.kind(p).intersection(self.occupied()) == self.kind(p)
        &&& forall|p: Piece, q: Piece|
            p != q ==> #[trigger] self.kind(p).intersection(self.kind(q)) == Bitboard::none()
        &&& self.occupied() == self.kind(Piece::Pawn).union(self.kind(Piece::Knight)).union(
            self.kind(Piece::Bishop),
        ).union(self.kind(Piece::Rook)).union(self.kind(Piece::Queen)).union(
            self.kind(Piece::King),
        )
    }

    /// Every board that exists at run time is consistent.
    #[verifier::type_invariant]
    spec fn inv(self) -> bool {
        self.wf()
    }

    /// The bitboard that `piece_bb` returns: the squares of kind `p`, cut
    /// down to those of side `c` where a side is given.
    pub open spec fn piece_bb_spec(self, c: Option<Color>, p: Piece) -> Bitboard {
        match c {
            Some(c) => self.kind(p).intersection(self.side(c)),
            None => self.kind(p),
        }
    }

    /// The squares on which the position has a piece of kind `p` that
    /// belongs to side `c`, or to either side where `c` is `None`.
    pub open spec fn squares_of(self, c: Option<Color>, p: Piece) -> Set<Square> {
        Set::new(
            |sq: Square|
                self@.contains_key(sq) && self@[sq].1 == p && (c matches Some(side) ==> self@[sq].0
                    == side),
        )
    }

    /// The squares on which the position has a piece of side `c`.
    pub open spec fn squares_of_side(self, c: Color) -> Set<Square> {
        Set::new(|sq: Square| self@.contains_key(sq) && self@[sq].0 == c)
    }

    /// Creates a new board with the piece placements of the start of a game.
    pub fn new() -> (b: Board)
        ensures
            b.wf(),
            b@ == start_position(),
            b.kind(Piece::Pawn) == Bitboard(PAWN_START),
            b.kind(Piece::Knight) == Bitboard(KNIGHT_START),
            b.kind(Piece::Bishop) == Bitboard(BISHOP_START),
            b.kind(Piece::Rook) == Bitboard(ROOK_START),
            b.kind(Piece::Queen) == Bitboard(QUEEN_START),
            b.kind(Piece::King) == Bitboard(KING_START),
            b.side(Color::White) == Bitboard(WHITE_START),
            b.side(Color::Black) == Bitboard(BLACK_START),
            b.empty() == Bitboard(EMPTY_START),
            b.occupied() == Bitboard(OCCUPIED_START),
    {
        let piece_bb = [
            Bitboard(PAWN_START),
            Bitboard(KNIGHT_START),
            Bitboard(BISHOP_START),
            Bitboard(ROOK_START),
            Bitboard(QUEEN_START),
            Bitboard(KING_START),
            Bitboard(WHITE_START),
            Bitboard(BLACK_START),
        ];
        let empty_bb = Bitboard(EMPTY_START);
        let occupied_bb = Bitboard(OCCUPIED_START);
        proof {
            let g = Board { piece_bb, empty_bb, occupied_bb };
            lemma_start_masks();
            assert forall|p: Piece, q: Piece| p != q implies #[trigger] g.kind(p).intersection(
                g.kind(q),
            ) == Bitboard::none() by {
                lemma_and_commutes(g.kind(p).0, g.kind(q).0);
            }
            assert forall|sq: Square| #[trigger]
                g@.contains_key(sq) == start_position().contains_key(sq) && (g@.contains_key(sq)
                    ==> g@[sq] == start_position()[sq]) by {
                lemma_start_bits(sq.encoding() as u64);
            }
            assert(g@ =~= start_position());
        }
        Board { piece_bb, empty_bb, occupied_bb }
    }

    /// Returns the appropriate piece bitboard for piece `p` intersected with
    /// the piece bitboard for the color `c`, if `c` is not `None`.
    ///
    /// The result holds exactly the squares on which a piece of kind `p`
    /// stands that belongs to `c`, or to either side where `c` is `None`.
    pub fn piece_bb(&self, c: Option<Color>, p: Piece) -> (r: Bitboard)
        ensures
            r == self.piece_bb_spec(c, p),
            r@ == self.squares_of(c, p),
    {
        let intersection = match c {
            Some(c) => self.piece_bb[6 + c.index()],
            None => Bitboard(!0),
        };
        let kind = self.piece_bb[p.index()];
        proof {
            use_type_invariant(self);
            let mask = kind.0;
            assert(mask & !0u64 == mask) by (bit_vector);
            self.lemma_piece_bb_members(c, p);
        }
        kind & intersection
    }

    /// Returns the squares that hold a piece of side `c`.
    pub fn color_bb(&self, c: Color) -> (r: Bitboard)
        ensures
            r == self.side(c),
            r@ == self.squares_of_side(c),
    {
        proof {
            use_type_invariant(self);
            self.lemma_side_members(c);
        }
        self.piece_bb[6 + c.index()]
    }

    /// Returns the squares that hold a piece.
    pub fn occupied_bb(&self) -> (r: Bitboard)
        ensures
            r == self.occupied(),
            r@ == self@.dom(),
    {
        proof {
            assert(self.occupied()@ =~= self@.dom());
        }
        self.occupied_bb
    }

    /// Returns the squares that hold no piece.
    pub fn empty_bb(&self) -> (r: Bitboard)
        ensures
            r == self.empty(),
            r@ == self@.dom().complement(),
    {
        proof {
            use_type_invariant(self);
            self.lemma_wf_sets();
            assert(self.empty()@ =~= self@.dom().complement());
        }
        self.empty_bb
    }

    /// The consistency of a board, said of the sets of squares that its
    /// bitboards stand for.
    pub proof fn lemma_wf_sets(self)
        requires
            self.wf(),
        ensures
            self.occupied()@ == self.side(Color::White)@.union(self.side(Color::Black)@),
            self.empty()@ == self.occupied()@.complement(),
            self.side(Color::White)@.disjoint(self.side(Color::Black)@),
            forall|p: Piece| #[trigger] self.kind(p)@.subset_of(self.occupied()@),
            forall|p: Piece, q: Piece|
                p != q ==> #[trigger] self.kind(p)@.disjoint(self.kind(q)@),
            forall|sq: Square|
                self.occupied()@.contains(sq) ==> exists|p: Piece| #[trigger]
                    self.kind(p)@.contains(sq),
    {
        Bitboard::lemma_none_all_view();
        Bitboard::lemma_union_view(self.side(Color::White), self.side(Color::Black));
        Bitboard::lemma_complement_view(self.occupied());
        Bitboard::lemma_disjoint_view(self.side(Color::White), self.side(Color::Black));
        assert forall|p: Piece| #[trigger] self.kind(p)@.subset_of(self.occupied()@) by {
            Bitboard::lemma_intersection_view(self.kind(p), self.occupied());
            assert(self.kind(p).intersection(self.occupied()) == self.kind(p));
        }
        assert forall|p: Piece, q: Piece| p != q implies #[trigger] self.kind(p)@.disjoint(
            self.kind(q)@,
        ) by {
            assert(self.kind(p).intersection(self.kind(q)) == Bitboard::none());
            Bitboard::lemma_disjoint_view(self.kind(p), self.kind(q));
        }
        let pn = self.kind(Piece::Pawn).union(self.kind(Piece::Knight));
        let pnb = pn.union(self.kind(Piece::Bishop));
        let pnbr = pnb.union(self.kind(Piece::Rook));
        let pnbrq = pnbr.union(self.kind(Piece::Queen));
        Bitboard::lemma_union_view(self.kind(Piece::Pawn), self.kind(Piece::Knight));
        Bitboard::lemma_union_view(pn, self.kind(Piece::Bishop));
        Bitboard::lemma_union_view(pnb, self.kind(Piece::Rook));
        Bitboard::lemma_union_view(pnbr, self.kind(Piece::Queen));
        Bitboard::lemma_union_view(pnbrq, self.kind(Piece::King));
    }

    /// On a consistent board the bitboard of a side holds exactly the
    /// squares on which the position has a piece of that side.
    pub proof fn lemma_side_members(self, c: Color)
        requires
            self.wf(),
        ensures
            self.side(c)@ == self.squares_of_side(c),
    {
        self.lemma_wf_sets();
        assert(self.side(c)@ =~= self.squares_of_side(c));
    }

    /// On a consistent board the bitboard that `piece_bb` computes holds
    /// exactly the squares on which the position has such a piece.
    pub proof fn lemma_piece_bb_members(self, c: Option<Color>, p: Piece)
        requires
            self.wf(),
        ensures
            self.piece_bb_spec(c, p)@ == self.squares_of(c, p),
    {
        self.lemma_wf_sets();
        assert forall|sq: Square|
            self.kind(p)@.contains(sq) <==> self@.contains_key(sq) && self@[sq].1 == p by {
            if self.kind(p)@.contains(sq) {
                assert(self.kind(p)@.subset_of(self.occupied()@));
                assert forall|q: Piece| q != p implies !self.kind(q)@.contains(sq) by {
                    assert(self.kind(p)@.disjoint(self.kind(q)@));
                }
            }
        }
        if let Some(side) = c {
            self.lemma_side_members(side);
            Bitboard::lemma_intersection_view(self.kind(p), self.side(side));
        }
        assert(self.piece_bb_spec(c, p)@ =~= self.squares_of(c, p));
    }

    /// A consistent board is nothing more than its position: two such boards
    /// with the same position are the same value.
    pub proof fn lemma_view_injective(self, other: Board)
        requires
            self.wf(),
            other.wf(),
        ensures
            self@ == other@ <==> self == other,
    {
        if self@ == other@ {
            assert forall|i: int| 0 <= i < 8 implies self.piece_bb[i] == other.piece_bb[i] by {
                if i < 6 {
                    let p = if i == 0 {
                        Piece::Pawn
                    } else if i == 1 {
                        Piece::Knight
                    } else if i == 2 {
                        Piece::Bishop
                    } else if i == 3 {
                        Piece::Rook
                    } else if i == 4 {
                        Piece::Queen
                    } else {
                        Piece::King
                    };
                    self.lemma_piece_bb_members(None, p);
                    other.lemma_piece_bb_members(None, p);
                    Bitboard::lemma_view_injective(self.kind(p), other.kind(p));
                } else {
                    let c = if i == 6 {
                        Color::White
                    } else {
                        Color::Black
                    };
                    self.lemma_side_members(c);
                    other.lemma_side_members(c);
                    Bitboard::lemma_view_injective(self.side(c), other.side(c));
                }
            }
            assert(self.piece_bb =~= other.piece_bb);
        }
    }

    /// Asking for a piece kind without a side gives the squares of White's
    /// pieces of that kind together with those of Black's.
    pub proof fn lemma_piece_bb_color_split(self, p: Piece)
        requires
            self.wf(),
        ensures
            self.piece_bb_spec(None, p) == self.piece_bb_spec(Some(Color::White), p).union(
                self.piece_bb_spec(Some(Color::Black), p),
            ),
    {
        let k = self.kind(p).0;
        let w = self.side(Color::White).0;
        let b = self.side(Color::Black).0;
        assert(self.kind(p).intersection(self.occupied()) == self.kind(p));
        assert(k == (k & w) | (k & b)) by (bit_vector)
            requires
                k & (w | b) == k,
        ;
    }

    /// The same kind of piece of the two sides never shares a square.
    pub proof fn lemma_piece_bb_sides_disjoint(self, p: Piece)
        requires
            self.wf(),
        ensures
            self.piece_bb_spec(Some(Color::White), p).intersection(
                self.piece_bb_spec(Some(Color::Black), p),
            ) == Bitboard::none(),
    {
        let k = self.kind(p).0;
        let w = self.side(Color::White).0;
        let b = self.side(Color::Black).0;
        assert((k & w) & (k & b) == 0) by (bit_vector)
            requires
                w & b == 0,
        ;
    }

    /// Two different kinds of piece never share a square, whichever sides
    /// are asked for.
    pub proof fn lemma_piece_bb_kinds_disjoint(
        self,
        c: Option<Color>,
        p: Piece,
        d: Option<Color>,
        q: Piece,
    )
        requires
            self.wf(),
            p != q,
        ensures
            self.piece_bb_spec(c, p).intersection(self.piece_bb_spec(d, q)) == Bitboard::none(),
    {
        let k = self.kind(p).0;
        let l = self.kind(q).0;
        assert(self.kind(p).intersection(self.kind(q)) == Bitboard::none());
        let m = if let Some(side) = c { self.side(side).0 } else { 0 };
        let n = if let Some(side) = d { self.side(side).0 } else { 0 };
        lemma_sub_masks_disjoint(k, l, m, n);
    }
}

proof fn lemma_and_commutes(a: u64, b: u64)
    by (bit_vector)
    ensures
        a & b == b & a,
{
}

proof fn lemma_sub_masks_disjoint(k: u64, l: u64, m: u64, n: u64)
    by (bit_vector)
    requires
        k & l == 0,
    ensures
        (k & m) & (l & n) == 0,
        k & (l & n) == 0,
        (k & m) & l == 0,
{
}

/// The masks of the start of a game fit together as a board requires.
proof fn lemma_start_masks()
    by (bit_vector)
    ensures
        OCCUPIED_START == WHITE_START | BLACK_START,
        EMPTY_START == !OCCUPIED_START,
        WHITE_START & BLACK_START == 0,
        PAWN_START & OCCUPIED_START == PAWN_START,
        KNIGHT_START & OCCUPIED_START == KNIGHT_START,
        BISHOP_START & OCCUPIED_START == BISHOP_START,
        ROOK_START & OCCUPIED_START == ROOK_START,
        QUEEN_START & OCCUPIED_START == QUEEN_START,
        KING_START & OCCUPIED_START == KING_START,
        PAWN_START & KNIGHT_START == 0,
        PAWN_START & BISHOP_START == 0,
        PAWN_START & ROOK_START == 0,
        PAWN_START & QUEEN_START == 0,
        PAWN_START & KING_START == 0,
        KNIGHT_START & BISHOP_START == 0,
        KNIGHT_START & ROOK_START == 0,
        KNIGHT_START & QUEEN_START == 0,
        KNIGHT_START & KING_START == 0,
        BISHOP_START & ROOK_START == 0,
        BISHOP_START & QUEEN_START == 0,
        BISHOP_START & KING_START == 0,
        ROOK_START & QUEEN_START == 0,
        ROOK_START & KING_START == 0,
        QUEEN_START & KING_START == 0,
        OCCUPIED_START == PAWN_START | KNIGHT_START | BISHOP_START | ROOK_START | QUEEN_START
            | KING_START,
{
}

/// Which bits of the masks of the start of a game are set, by the rank and
/// the file that a bit stands for.
proof fn lemma_start_bits(i: u64)
    by (bit_vector)
    requires
        i < 64,
    ensures
        bit_is_set(PAWN_START, i) <==> i / 8 == 1 || i / 8 == 6,
        bit_is_set(KNIGHT_START, i) <==> (i / 8 == 0 || i / 8 == 7) && (i % 8 == 1 || i % 8 == 6),
        bit_is_set(BISHOP_START, i) <==> (i / 8 == 0 || i / 8 == 7) && (i % 8 == 2 || i % 8 == 5),
        bit_is_set(ROOK_START, i) <==> (i / 8 == 0 || i / 8 == 7) && (i % 8 == 0 || i % 8 == 7),
        bit_is_set(QUEEN_START, i) <==> (i / 8 == 0 || i / 8 == 7) && i % 8 == 3,
        bit_is_set(KING_START, i) <==> (i / 8 == 0 || i / 8 == 7) && i % 8 == 4,
        bit_is_set(WHITE_START, i) <==> i / 8 <= 1,
        bit_is_set(BLACK_START, i) <==> i / 8 >= 6,
        bit_is_set(OCCUPIED_START, i) <==> i / 8 <= 1 || i / 8 >= 6,
        bit_is_set(EMPTY_START, i) <==> 2 <= i / 8 <= 5,
{
}

} // verus!
