use chess_board::bitboard::{
    BISHOP_START, BLACK_START, EMPTY_START, KING_START, KNIGHT_START, OCCUPIED_START, PAWN_START,
    QUEEN_START, ROOK_START, WHITE_START,
};
use chess_board::{Bitboard, Square};

fn members(bb: Bitboard) -> Vec<Square> {
    (0u16..64)
        .map(|i| Square::from_u16(i).unwrap())
        .filter(|sq| bb.contains(*sq))
        .collect()
}

#[test]
fn and_is_intersection() {
    let a = Bitboard(0b1100);
    let b = Bitboard(0b1010);
    assert_eq!(a & b, Bitboard(0b1000));
    assert_eq!(members(a & b), vec![Square::D1]);
}

#[test]
fn or_is_union() {
    let a = Bitboard(0b1100);
    let b = Bitboard(0b1010);
    assert_eq!(a | b, Bitboard(0b1110));
    assert_eq!(members(a | b), vec![Square::B1, Square::C1, Square::D1]);
}

#[test]
fn xor_is_symmetric_difference() {
    let a = Bitboard(0b1100);
    let b = Bitboard(0b1010);
    assert_eq!(a ^ b, Bitboard(0b0110));
    assert_eq!(members(a ^ b), vec![Square::B1, Square::C1]);
}

#[test]
fn not_is_complement() {
    let a = Bitboard(0x0000_0000_0000_FFFF);
    assert_eq!(!a, Bitboard(0xFFFF_FFFF_FFFF_0000));
    assert_eq!(!Bitboard(0), Bitboard(u64::MAX));
    assert_eq!(!Bitboard(u64::MAX), Bitboard(0));
    for i in 0u16..64 {
        let sq = Square::from_u16(i).unwrap();
        assert_eq!((!a).contains(sq), !a.contains(sq));
    }
}

#[test]
fn operators_leave_their_operands_alone() {
    let a = Bitboard(0xF0F0);
    let b = Bitboard(0x0FF0);
    let _ = a & b;
    let _ = a | b;
    let _ = a ^ b;
    let _ = !a;
    assert_eq!(a, Bitboard(0xF0F0));
    assert_eq!(b, Bitboard(0x0FF0));
}

#[test]
fn operators_are_total_on_extreme_masks() {
    let none = Bitboard(0);
    let all = Bitboard(u64::MAX);
    assert_eq!(none & all, none);
    assert_eq!(none | all, all);
    assert_eq!(none ^ all, all);
    assert_eq!(all ^ all, none);
    assert_eq!(all & all, all);
    assert_eq!(!(none | all), none);
}

#[test]
fn equality_compares_masks() {
    assert_eq!(Bitboard(42), Bitboard(42));
    assert_ne!(Bitboard(42), Bitboard(43));
    assert!(Bitboard(1 << 63) != Bitboard(1));
}

#[test]
fn contains_reads_the_bit_of_the_square() {
    for i in 0u16..64 {
        let sq = Square::from_u16(i).unwrap();
        let single = Bitboard(1u64 << i);
        assert!(single.contains(sq));
        assert_eq!(members(single), vec![sq]);
        assert!(!Bitboard(!(1u64 << i)).contains(sq));
    }
}

#[test]
fn empty_and_full_masks() {
    assert!(members(Bitboard(0)).is_empty());
    assert_eq!(members(Bitboard(!0)).len(), 64);
    assert!(Bitboard(1 << 63).contains(Square::H8));
    assert!(Bitboard(1).contains(Square::A1));
    assert!(!Bitboard(1).contains(Square::B1));
}

#[test]
fn set_algebra_agrees_with_membership() {
    let samples = [
        Bitboard(0),
        Bitboard(u64::MAX),
        Bitboard(0x00FF_0000_0000_FF00),
        Bitboard(0x8100_0000_0000_0081),
        Bitboard(0x0123_4567_89AB_CDEF),
        Bitboard(0xAAAA_5555_AAAA_5555),
    ];
    for a in samples {
        for b in samples {
            for i in 0u16..64 {
                let sq = Square::from_u16(i).unwrap();
                assert_eq!((a & b).contains(sq), a.contains(sq) && b.contains(sq));
                assert_eq!((a | b).contains(sq), a.contains(sq) || b.contains(sq));
                assert_eq!((a ^ b).contains(sq), a.contains(sq) != b.contains(sq));
            }
        }
    }
}

#[test]
fn start_masks_have_the_standard_values() {
    assert_eq!(PAWN_START, 0x00FF_0000_0000_FF00);
    assert_eq!(KNIGHT_START, 0x4200_0000_0000_0042);
    assert_eq!(BISHOP_START, 0x2400_0000_0000_0024);
    assert_eq!(ROOK_START, 0x8100_0000_0000_0081);
    assert_eq!(QUEEN_START, 0x0800_0000_0000_0008);
    assert_eq!(KING_START, 0x1000_0000_0000_0010);
    assert_eq!(WHITE_START, 0x0000_0000_0000_FFFF);
    assert_eq!(BLACK_START, 0xFFFF_0000_0000_0000);
    assert_eq!(EMPTY_START, 0x0000_FFFF_FFFF_0000);
    assert_eq!(OCCUPIED_START, 0xFFFF_0000_0000_FFFF);
}
