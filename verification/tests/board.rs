use chess_board::{Bitboard, Board, Color, Piece, Square};

const KINDS: [Piece; 6] = [
    Piece::Pawn,
    Piece::Knight,
    Piece::Bishop,
    Piece::Rook,
    Piece::Queen,
    Piece::King,
];

const SIDES: [Color; 2] = [Color::White, Color::Black];

fn squares(bb: Bitboard) -> Vec<Square> {
    (0u16..64)
        .map(|i| Square::from_u16(i).unwrap())
        .filter(|sq| bb.contains(*sq))
        .collect()
}

#[test]
fn start_occupied_is_white_or_black() {
    let b = Board::new();
    assert_eq!(
        b.occupied_bb(),
        b.color_bb(Color::White) | b.color_bb(Color::Black)
    );
}

#[test]
fn start_empty_is_complement_of_occupied() {
    let b = Board::new();
    assert_eq!(b.empty_bb(), !b.occupied_bb());
    assert_eq!(b.empty_bb() & b.occupied_bb(), Bitboard(0));
    assert_eq!(b.empty_bb() | b.occupied_bb(), Bitboard(u64::MAX));
}

#[test]
fn start_sides_do_not_overlap() {
    let b = Board::new();
    assert_eq!(
        b.color_bb(Color::White) & b.color_bb(Color::Black),
        Bitboard(0)
    );
}

#[test]
fn start_kinds_mark_occupied_squares_only() {
    let b = Board::new();
    for p in KINDS {
        assert_eq!(b.piece_bb(None, p) & b.occupied_bb(), b.piece_bb(None, p));
    }
}

#[test]
fn start_kinds_are_pairwise_disjoint() {
    let b = Board::new();
    for p in KINDS {
        for q in KINDS {
            if p != q {
                assert_eq!(b.piece_bb(None, p) & b.piece_bb(None, q), Bitboard(0));
                for c in SIDES {
                    for d in SIDES {
                        assert_eq!(
                            b.piece_bb(Some(c), p) & b.piece_bb(Some(d), q),
                            Bitboard(0)
                        );
                    }
                }
            }
        }
    }
}

#[test]
fn start_occupied_is_union_of_kinds() {
    let b = Board::new();
    let mut all = Bitboard(0);
    for p in KINDS {
        all = all | b.piece_bb(None, p);
    }
    assert_eq!(b.occupied_bb(), all);
}

#[test]
fn start_has_32_occupied_and_32_empty_squares() {
    let b = Board::new();
    assert_eq!(b.occupied_bb().0.count_ones(), 32);
    assert_eq!(b.empty_bb().0.count_ones(), 32);
    assert_eq!(squares(b.occupied_bb()).len(), 32);
    assert_eq!(squares(b.empty_bb()).len(), 32);
    assert_eq!(b.occupied_bb(), Bitboard(0xFFFF_0000_0000_FFFF));
    assert_eq!(b.empty_bb(), Bitboard(0x0000_FFFF_FFFF_0000));
}

#[test]
fn start_white_pawns_fill_the_second_rank() {
    let b = Board::new();
    let pawns = b.piece_bb(Some(Color::White), Piece::Pawn);
    assert_eq!(pawns.0.count_ones(), 8);
    assert_eq!(pawns, Bitboard(0x0000_0000_0000_FF00));
    assert_eq!(
        squares(pawns),
        vec![
            Square::A2,
            Square::B2,
            Square::C2,
            Square::D2,
            Square::E2,
            Square::F2,
            Square::G2,
            Square::H2
        ]
    );
    for sq in squares(pawns) {
        assert_eq!(sq.to_u16() / 8, 1);
    }
}

#[test]
fn start_black_pawns_fill_the_seventh_rank() {
    let b = Board::new();
    let pawns = b.piece_bb(Some(Color::Black), Piece::Pawn);
    assert_eq!(pawns, Bitboard(0x00FF_0000_0000_0000));
    for sq in squares(pawns) {
        assert_eq!(sq.to_u16() / 8, 6);
    }
}

#[test]
fn start_has_two_kings() {
    let b = Board::new();
    let kings = b.piece_bb(None, Piece::King);
    assert_eq!(kings.0.count_ones(), 2);
    assert_eq!(squares(kings), vec![Square::E1, Square::E8]);
}

#[test]
fn start_black_knights_stand_on_b8_and_g8() {
    let b = Board::new();
    let knights = b.piece_bb(Some(Color::Black), Piece::Knight);
    assert_eq!(
        knights,
        b.piece_bb(None, Piece::Knight) & b.color_bb(Color::Black)
    );
    assert_eq!(squares(knights), vec![Square::B8, Square::G8]);
    assert_eq!(knights, Bitboard((1u64 << 57) | (1u64 << 62)));
}

#[test]
fn start_back_ranks() {
    let b = Board::new();
    let white = |p| squares(b.piece_bb(Some(Color::White), p));
    let black = |p| squares(b.piece_bb(Some(Color::Black), p));
    assert_eq!(white(Piece::Rook), vec![Square::A1, Square::H1]);
    assert_eq!(white(Piece::Knight), vec![Square::B1, Square::G1]);
    assert_eq!(white(Piece::Bishop), vec![Square::C1, Square::F1]);
    assert_eq!(white(Piece::Queen), vec![Square::D1]);
    assert_eq!(white(Piece::King), vec![Square::E1]);
    assert_eq!(black(Piece::Rook), vec![Square::A8, Square::H8]);
    assert_eq!(black(Piece::Knight), vec![Square::B8, Square::G8]);
    assert_eq!(black(Piece::Bishop), vec![Square::C8, Square::F8]);
    assert_eq!(black(Piece::Queen), vec![Square::D8]);
    assert_eq!(black(Piece::King), vec![Square::E8]);
}

#[test]
fn start_color_blind_kind_masks() {
    let b = Board::new();
    assert_eq!(b.piece_bb(None, Piece::Pawn), Bitboard(0x00FF_0000_0000_FF00));
    assert_eq!(b.piece_bb(None, Piece::Knight), Bitboard(0x4200_0000_0000_0042));
    assert_eq!(b.piece_bb(None, Piece::Bishop), Bitboard(0x2400_0000_0000_0024));
    assert_eq!(b.piece_bb(None, Piece::Rook), Bitboard(0x8100_0000_0000_0081));
    assert_eq!(b.piece_bb(None, Piece::Queen), Bitboard(0x0800_0000_0000_0008));
    assert_eq!(b.piece_bb(None, Piece::King), Bitboard(0x1000_0000_0000_0010));
}

#[test]
fn start_side_masks() {
    let b = Board::new();
    assert_eq!(b.color_bb(Color::White), Bitboard(0x0000_0000_0000_FFFF));
    assert_eq!(b.color_bb(Color::Black), Bitboard(0xFFFF_0000_0000_0000));
    assert_eq!(b.color_bb(Color::White).0.count_ones(), 16);
    assert_eq!(b.color_bb(Color::Black).0.count_ones(), 16);
}

#[test]
fn piece_bb_without_color_is_union_over_colors() {
    let b = Board::new();
    for p in KINDS {
        assert_eq!(
            b.piece_bb(None, p),
            b.piece_bb(Some(Color::White), p) | b.piece_bb(Some(Color::Black), p)
        );
    }
}

#[test]
fn piece_bb_with_color_is_intersection_with_side() {
    let b = Board::new();
    for p in KINDS {
        for c in SIDES {
            assert_eq!(b.piece_bb(Some(c), p), b.piece_bb(None, p) & b.color_bb(c));
        }
    }
}

#[test]
fn piece_bb_sides_of_one_kind_are_disjoint() {
    let b = Board::new();
    for p in KINDS {
        assert_eq!(
            b.piece_bb(Some(Color::White), p) & b.piece_bb(Some(Color::Black), p),
            Bitboard(0)
        );
    }
}

#[test]
fn piece_bb_does_not_change_the_board() {
    let b = Board::new();
    let before = (b.occupied_bb(), b.empty_bb(), b.color_bb(Color::White));
    for p in KINDS {
        let _ = b.piece_bb(None, p);
        for c in SIDES {
            let _ = b.piece_bb(Some(c), p);
        }
    }
    assert_eq!(before, (b.occupied_bb(), b.empty_bb(), b.color_bb(Color::White)));
}

#[test]
fn every_start_square_holds_at_most_one_piece() {
    let b = Board::new();
    for i in 0u16..64 {
        let sq = Square::from_u16(i).unwrap();
        let mut holders = 0;
        for p in KINDS {
            for c in SIDES {
                if b.piece_bb(Some(c), p).contains(sq) {
                    holders += 1;
                }
            }
        }
        assert_eq!(holders == 1, b.occupied_bb().contains(sq));
        assert_eq!(holders == 0, b.empty_bb().contains(sq));
    }
}

#[test]
fn new_boards_are_alike() {
    let a = Board::new();
    let b = Board::new();
    for p in KINDS {
        assert_eq!(a.piece_bb(None, p), b.piece_bb(None, p));
    }
    assert_eq!(a.occupied_bb(), b.occupied_bb());
    assert_eq!(a.empty_bb(), b.empty_bb());
}
