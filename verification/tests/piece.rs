use chessboard::piece::{Color, Piece, PieceType};

const KINDS: [PieceType; 6] = [
    PieceType::Pawn,
    PieceType::Bishop,
    PieceType::Knight,
    PieceType::Rook,
    PieceType::King,
    PieceType::Queen,
];

const COLORS: [Color; 2] = [Color::White, Color::Black];

#[test]
fn round_trip_every_occupied_piece() {
    for &kind in KINDS.iter() {
        for &color in COLORS.iter() {
            let p = Piece::new(kind, Some(color));
            assert_eq!(p.piece_type(), kind);
            assert_eq!(p.color(), Some(color));
            let v = p.encode();
            assert_eq!(Piece::decode(v), Some(p));
        }
    }
}

#[test]
fn empty_sentinel_round_trip() {
    let e = Piece::empty();
    assert_eq!(e.encode(), 0);
    assert_eq!(e.piece_type(), PieceType::Empty);
    assert_eq!(e.color(), None);
    assert_eq!(Piece::decode(0), Some(e));
    let built = Piece::new(PieceType::Empty, None);
    assert_eq!(built, e);
}

#[test]
fn mismatched_construction_fails() {
    for &color in COLORS.iter() {
        assert_eq!(Piece::try_new(PieceType::Empty, Some(color)), None);
    }
    for &kind in KINDS.iter() {
        assert_eq!(Piece::try_new(kind, None), None);
    }
    assert!(Piece::try_new(PieceType::Empty, None).is_some());
    for &kind in KINDS.iter() {
        for &color in COLORS.iter() {
            assert!(Piece::try_new(kind, Some(color)).is_some());
        }
    }
}

#[test]
fn bit_layout_is_exact() {
    // kind in the low three bits, white = bit 3, black = bit 4
    let kind_bits = |kind: PieceType| -> u8 {
        match kind {
            PieceType::Empty => 0,
            PieceType::Pawn => 1,
            PieceType::Bishop => 2,
            PieceType::Knight => 3,
            PieceType::Rook => 4,
            PieceType::King => 5,
            PieceType::Queen => 6,
        }
    };
    for &kind in KINDS.iter() {
        assert_eq!(Piece::new(kind, Some(Color::White)).encode(), kind_bits(kind) | 0b01000);
        assert_eq!(Piece::new(kind, Some(Color::Black)).encode(), kind_bits(kind) | 0b10000);
    }
    assert_eq!(Piece::new(PieceType::Pawn, Some(Color::White)).encode(), 9);
    assert_eq!(Piece::new(PieceType::Queen, Some(Color::Black)).encode(), 22);
}

#[test]
fn decode_rejects_out_of_range_patterns() {
    // kind code 7, a color flag without a kind, both flags at once, high bits
    for v in [7u8, 8, 15, 16, 23, 24, 25, 27, 31, 32, 64, 128, 200, 255] {
        assert_eq!(Piece::decode(v), None, "value {v} must not decode");
    }
}

#[test]
fn decode_accepts_exactly_the_encoded_patterns() {
    let mut valid = 0;
    for v in 0..=255u8 {
        if let Some(p) = Piece::decode(v) {
            valid += 1;
            assert_eq!(p.encode(), v);
        }
    }
    // the zero sentinel and six kinds times two colors
    assert_eq!(valid, 13);
}

#[test]
fn occupied_pieces_lists_each_once() {
    let pieces = chessboard::piece::occupied_pieces();
    assert_eq!(pieces.len(), 12);
    let mut codes: Vec<u8> = pieces.iter().map(|p| p.encode()).collect();
    codes.sort();
    codes.dedup();
    assert_eq!(codes.len(), 12);
    for p in pieces.iter() {
        assert_ne!(p.piece_type(), PieceType::Empty);
        assert!(p.color().is_some());
    }
    assert_eq!(pieces[0], Piece::new(PieceType::Pawn, Some(Color::White)));
}
