use schack::coords::{
    filerank_to_num, from_engine_coords, is_filerank, num_to_filerank, to_engine_coords,
    EnginePosition,
};
use schack::pieces::{get_piece_colour, is_promotion_move, PieceId, PieceKind, Side};

#[test]
fn filerank_of_corners_and_centre() {
    assert_eq!(num_to_filerank(&(0, 0)), "a8");
    assert_eq!(num_to_filerank(&(7, 7)), "h1");
    assert_eq!(num_to_filerank(&(4, 6)), "e2");
    assert_eq!(num_to_filerank(&(4, 4)), "e4");
}

#[test]
fn filerank_parses_back() {
    assert_eq!(filerank_to_num(&"e2".to_string()), (4, 6));
    assert_eq!(filerank_to_num(&"a8".to_string()), (0, 0));
    assert_eq!(filerank_to_num(&"h1".to_string()), (7, 7));
}

#[test]
fn filerank_round_trip_on_every_square() {
    for col in 0..8u8 {
        for row in 0..8u8 {
            let code = num_to_filerank(&(col, row));
            assert_eq!(code.len(), 2);
            assert!(is_filerank(&code));
            assert_eq!(filerank_to_num(&code), (col, row));
        }
    }
}

#[test]
fn filerank_validity() {
    assert!(is_filerank(&"d5".to_string()));
    assert!(!is_filerank(&"".to_string()));
    assert!(!is_filerank(&"e".to_string()));
    assert!(!is_filerank(&"e45".to_string()));
    assert!(!is_filerank(&"i4".to_string()));
    assert!(!is_filerank(&"e9".to_string()));
    assert!(!is_filerank(&"e0".to_string()));
    assert!(!is_filerank(&"E4".to_string()));
}

#[test]
fn engine_coords_of_corners() {
    assert_eq!(to_engine_coords(&(0, 0)), EnginePosition { file: 1, rank: 8 });
    assert_eq!(to_engine_coords(&(7, 7)), EnginePosition { file: 8, rank: 1 });
    assert_eq!(to_engine_coords(&(4, 6)), EnginePosition { file: 5, rank: 2 });
}

#[test]
fn engine_coords_round_trip() {
    for col in 0..8u8 {
        for row in 0..8u8 {
            let pos = to_engine_coords(&(col, row));
            assert_eq!(from_engine_coords(&pos), (col, row));
        }
    }
}

#[test]
fn piece_colour_and_opposite() {
    let p = PieceId { kind: PieceKind::Rook, side: Side::Black };
    assert_eq!(get_piece_colour(&p), Side::Black);
    assert_eq!(Side::Black.opposite(), Side::White);
    assert_eq!(Side::White.opposite(), Side::Black);
    assert_eq!(Side::White.opposite().opposite(), Side::White);
}

#[test]
fn promotion_rows() {
    let white_pawn = PieceId { kind: PieceKind::Pawn, side: Side::White };
    let black_pawn = PieceId { kind: PieceKind::Pawn, side: Side::Black };
    let white_queen = PieceId { kind: PieceKind::Queen, side: Side::White };
    assert!(is_promotion_move(&white_pawn, 0));
    assert!(!is_promotion_move(&white_pawn, 7));
    assert!(!is_promotion_move(&white_pawn, 3));
    assert!(is_promotion_move(&black_pawn, 7));
    assert!(!is_promotion_move(&black_pawn, 0));
    assert!(!is_promotion_move(&white_queen, 0));
}
