//! Tests for the hop1zuo1 (reserve) bookkeeping of both field types.

use cetkaik_core::{absolute, relative, Color, Profession};

#[test]
fn absolute_insert_then_remove() {
    let mut field = absolute::Field {
        board: absolute::Board::new(),
        a_side_hop1zuo1: Vec::new(),
        ia_side_hop1zuo1: Vec::new(),
    };
    field.insert_nontam_piece_into_hop1zuo1(
        Color::Kok1,
        Profession::Kauk2,
        absolute::Side::ASide,
    );
    let removed = field
        .find_and_remove_piece_from_hop1zuo1(Color::Kok1, Profession::Kauk2, absolute::Side::ASide)
        .unwrap();
    assert!(removed.a_side_hop1zuo1.is_empty());
    // The input field is untouched.
    assert_eq!(field.a_side_hop1zuo1.len(), 1);
}

#[test]
fn absolute_remove_then_absent() {
    let mut field = absolute::Field {
        board: absolute::Board::new(),
        a_side_hop1zuo1: Vec::new(),
        ia_side_hop1zuo1: Vec::new(),
    };
    field.insert_nontam_piece_into_hop1zuo1(
        Color::Huok2,
        Profession::Gua2,
        absolute::Side::IASide,
    );
    let once = field
        .find_and_remove_piece_from_hop1zuo1(
            Color::Huok2,
            Profession::Gua2,
            absolute::Side::IASide,
        )
        .unwrap();
    let twice = once.find_and_remove_piece_from_hop1zuo1(
        Color::Huok2,
        Profession::Gua2,
        absolute::Side::IASide,
    );
    assert!(twice.is_none());
}

#[test]
fn absolute_remove_missing_is_none() {
    let field = absolute::Field {
        board: absolute::Board::new(),
        a_side_hop1zuo1: Vec::new(),
        ia_side_hop1zuo1: Vec::new(),
    };
    assert!(field
        .find_and_remove_piece_from_hop1zuo1(Color::Kok1, Profession::Io, absolute::Side::ASide)
        .is_none());
}

#[test]
fn absolute_remove_takes_first_match_only() {
    let mut field = absolute::Field {
        board: absolute::Board::new(),
        a_side_hop1zuo1: Vec::new(),
        ia_side_hop1zuo1: Vec::new(),
    };
    field.insert_nontam_piece_into_hop1zuo1(
        Color::Kok1,
        Profession::Kauk2,
        absolute::Side::ASide,
    );
    field.insert_nontam_piece_into_hop1zuo1(Color::Huok2, Profession::Dau2, absolute::Side::ASide);
    field.insert_nontam_piece_into_hop1zuo1(
        Color::Kok1,
        Profession::Kauk2,
        absolute::Side::ASide,
    );
    let removed = field
        .find_and_remove_piece_from_hop1zuo1(Color::Kok1, Profession::Kauk2, absolute::Side::ASide)
        .unwrap();
    // The first of the two pawns is gone; the rest keep their order.
    assert_eq!(
        removed.a_side_hop1zuo1,
        vec![
            absolute::NonTam2Piece {
                color: Color::Huok2,
                prof: Profession::Dau2,
            },
            absolute::NonTam2Piece {
                color: Color::Kok1,
                prof: Profession::Kauk2,
            },
        ]
    );
}

#[test]
fn absolute_insert_preserves_order() {
    let mut field = absolute::Field {
        board: absolute::Board::new(),
        a_side_hop1zuo1: Vec::new(),
        ia_side_hop1zuo1: Vec::new(),
    };
    field.insert_nontam_piece_into_hop1zuo1(
        Color::Kok1,
        Profession::Kauk2,
        absolute::Side::ASide,
    );
    field.insert_nontam_piece_into_hop1zuo1(Color::Huok2, Profession::Uai1, absolute::Side::ASide);
    assert_eq!(
        field.a_side_hop1zuo1,
        vec![
            absolute::NonTam2Piece {
                color: Color::Kok1,
                prof: Profession::Kauk2,
            },
            absolute::NonTam2Piece {
                color: Color::Huok2,
                prof: Profession::Uai1,
            },
        ]
    );
    assert!(field.ia_side_hop1zuo1.is_empty());
}

#[test]
fn relative_insert_then_remove() {
    let mut field = relative::Field {
        current_board: relative::Board::empty(),
        hop1zuo1of_upward: Vec::new(),
        hop1zuo1of_downward: Vec::new(),
    };
    field.insert_nontam_piece_into_hop1zuo1(
        Color::Huok2,
        Profession::Tuk2,
        relative::Side::Upward,
    );
    assert_eq!(
        field.hop1zuo1of_upward,
        vec![relative::NonTam2PieceUpward {
            color: Color::Huok2,
            prof: Profession::Tuk2,
        }]
    );
    let removed = field
        .find_and_remove_piece_from_hop1zuo1(
            Color::Huok2,
            Profession::Tuk2,
            relative::Side::Upward,
        )
        .unwrap();
    assert!(removed.hop1zuo1of_upward.is_empty());
    assert!(removed
        .find_and_remove_piece_from_hop1zuo1(
            Color::Huok2,
            Profession::Tuk2,
            relative::Side::Upward,
        )
        .is_none());
}

#[test]
fn relative_remove_respects_side() {
    let mut field = relative::Field {
        current_board: relative::Board::empty(),
        hop1zuo1of_upward: Vec::new(),
        hop1zuo1of_downward: Vec::new(),
    };
    field.insert_nontam_piece_into_hop1zuo1(
        Color::Kok1,
        Profession::Maun1,
        relative::Side::Downward,
    );
    assert!(field
        .find_and_remove_piece_from_hop1zuo1(Color::Kok1, Profession::Maun1, relative::Side::Upward)
        .is_none());
    assert!(field
        .find_and_remove_piece_from_hop1zuo1(
            Color::Kok1,
            Profession::Maun1,
            relative::Side::Downward,
        )
        .is_some());
}

#[test]
fn piece_predicates() {
    let tam = relative::Piece::Tam2;
    assert!(tam.is_tam2());
    assert!(!tam.has_color(Color::Kok1));
    assert!(!tam.has_prof(Profession::Io));
    assert!(!tam.has_side(relative::Side::Upward));
    let pawn = relative::Piece::NonTam2Piece {
        color: Color::Kok1,
        prof: Profession::Kauk2,
        side: relative::Side::Upward,
    };
    assert!(!pawn.is_tam2());
    assert!(pawn.has_color(Color::Kok1));
    assert!(!pawn.has_color(Color::Huok2));
    assert!(pawn.has_prof(Profession::Kauk2));
    assert!(pawn.has_side(relative::Side::Upward));
    assert!(!pawn.has_side(relative::Side::Downward));

    let abs_pawn = absolute::Piece::NonTam2Piece {
        color: Color::Huok2,
        prof: Profession::Kauk2,
        side: absolute::Side::ASide,
    };
    assert!(absolute::Piece::Tam2.is_tam2());
    assert!(!abs_pawn.is_tam2());
    assert!(abs_pawn.has_color(Color::Huok2));
    assert!(abs_pawn.has_prof(Profession::Kauk2));
    assert!(abs_pawn.has_side(absolute::Side::ASide));
    assert!(!absolute::Piece::Tam2.has_side(absolute::Side::ASide));
}

#[test]
fn piece_from_reserve_entries() {
    let up = relative::NonTam2PieceUpward {
        color: Color::Kok1,
        prof: Profession::Gua2,
    };
    assert_eq!(
        relative::Piece::from(up),
        relative::Piece::NonTam2Piece {
            color: Color::Kok1,
            prof: Profession::Gua2,
            side: relative::Side::Upward,
        }
    );
    let down = relative::NonTam2PieceDownward {
        color: Color::Huok2,
        prof: Profession::Kaun1,
    };
    assert_eq!(
        relative::Piece::from(down),
        relative::Piece::NonTam2Piece {
            color: Color::Huok2,
            prof: Profession::Kaun1,
            side: relative::Side::Downward,
        }
    );
}

#[test]
fn serialize_piece_tokens() {
    assert_eq!(relative::serialize_piece(relative::Piece::Tam2), "皇");
    assert_eq!(
        relative::serialize_piece(relative::Piece::NonTam2Piece {
            prof: Profession::Uai1,
            color: Color::Kok1,
            side: relative::Side::Downward,
        }),
        "赤将↓"
    );
    assert_eq!(
        relative::serialize_piece(relative::Piece::NonTam2Piece {
            prof: Profession::Nuak1,
            color: Color::Huok2,
            side: relative::Side::Upward,
        }),
        "黒船↑"
    );
}

#[test]
fn serialize_relative_coord() {
    assert_eq!(
        relative::serialize_coord(relative::Coord { row: 5, col: 6 }),
        "[5,6]"
    );
    assert_eq!(
        relative::serialize_coord(relative::Coord { row: 0, col: 8 }),
        "[0,8]"
    );
}

#[test]
fn board_set_and_get() {
    let mut board = relative::Board::empty();
    let c = relative::Coord { row: 3, col: 7 };
    assert_eq!(board.get(c), None);
    board.set(c, Some(relative::Piece::Tam2));
    assert_eq!(board.get(c), Some(relative::Piece::Tam2));
    assert_eq!(board.get(relative::Coord { row: 7, col: 3 }), None);

    let mut abs_board = absolute::Board::new();
    let a = absolute::Coord(absolute::Row::E, absolute::Column::X);
    assert_eq!(abs_board.get(a), None);
    abs_board.insert(a, absolute::Piece::Tam2);
    assert_eq!(abs_board.get(a), Some(absolute::Piece::Tam2));
    assert_eq!(abs_board.remove(a), Some(absolute::Piece::Tam2));
    assert_eq!(abs_board.get(a), None);
}
