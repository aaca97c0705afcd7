//! Tests for the perspective engine: side, piece, coordinate, board and
//! field conversions, and the initial-layout cross-check.

use cetkaik_core::perspective::{
    to_absolute_board, to_absolute_coord, to_absolute_field, to_absolute_piece, to_absolute_side,
    to_relative_board, to_relative_coord, to_relative_field, to_relative_piece, to_relative_side,
    Perspective,
};
use cetkaik_core::{absolute, relative, Color, Profession};

fn both_perspectives() -> [Perspective; 2] {
    [
        Perspective::IaIsDownAndPointsUpward,
        Perspective::IaIsUpAndPointsDownward,
    ]
}

#[test]
fn ia_is_down_only_for_the_first_perspective() {
    assert!(Perspective::IaIsDownAndPointsUpward.ia_is_down());
    assert!(!Perspective::IaIsUpAndPointsDownward.ia_is_down());
}

#[test]
fn side_conversion_examples() {
    assert_eq!(
        to_absolute_side(relative::Side::Upward, Perspective::IaIsDownAndPointsUpward),
        absolute::Side::IASide
    );
    assert_eq!(
        to_absolute_side(relative::Side::Upward, Perspective::IaIsUpAndPointsDownward),
        absolute::Side::ASide
    );
    assert_eq!(
        to_relative_side(absolute::Side::ASide, Perspective::IaIsDownAndPointsUpward),
        relative::Side::Downward
    );
}

#[test]
fn side_conversion_roundtrip() {
    for &p in both_perspectives().iter() {
        for &s in [relative::Side::Upward, relative::Side::Downward].iter() {
            assert_eq!(to_relative_side(to_absolute_side(s, p), p), s);
        }
        for &s in [absolute::Side::ASide, absolute::Side::IASide].iter() {
            assert_eq!(to_absolute_side(to_relative_side(s, p), p), s);
        }
    }
}

#[test]
fn side_flip_involution() {
    for &s in [relative::Side::Upward, relative::Side::Downward].iter() {
        assert_eq!(s.not().not(), s);
    }
    for &s in [absolute::Side::ASide, absolute::Side::IASide].iter() {
        assert_eq!(s.not().not(), s);
    }
}

#[test]
fn piece_conversion_examples() {
    assert_eq!(
        to_relative_piece(absolute::Piece::Tam2, Perspective::IaIsDownAndPointsUpward),
        relative::Piece::Tam2
    );
    assert_eq!(
        to_relative_piece(
            absolute::Piece::NonTam2Piece {
                prof: Profession::Uai1,
                color: Color::Kok1,
                side: absolute::Side::IASide,
            },
            Perspective::IaIsDownAndPointsUpward,
        ),
        relative::Piece::NonTam2Piece {
            prof: Profession::Uai1,
            color: Color::Kok1,
            side: relative::Side::Upward,
        }
    );
    assert_eq!(
        to_absolute_piece(
            relative::Piece::NonTam2Piece {
                prof: Profession::Uai1,
                color: Color::Kok1,
                side: relative::Side::Upward,
            },
            Perspective::IaIsDownAndPointsUpward,
        ),
        absolute::Piece::NonTam2Piece {
            prof: Profession::Uai1,
            color: Color::Kok1,
            side: absolute::Side::IASide,
        }
    );
}

#[test]
fn coord_conversion_scenario() {
    assert_eq!(
        to_absolute_coord(
            relative::Coord { row: 2, col: 4 },
            Perspective::IaIsDownAndPointsUpward,
        ),
        absolute::Coord(absolute::Row::I, absolute::Column::Z)
    );
    assert_eq!(
        to_relative_coord(
            absolute::Coord(absolute::Row::I, absolute::Column::Z),
            Perspective::IaIsDownAndPointsUpward,
        ),
        relative::Coord { row: 2, col: 4 }
    );
}

#[test]
fn coord_conversion_flips_under_the_other_perspective() {
    assert_eq!(
        to_absolute_coord(
            relative::Coord { row: 0, col: 0 },
            Perspective::IaIsUpAndPointsDownward,
        ),
        absolute::Coord(absolute::Row::IA, absolute::Column::P)
    );
}

#[test]
fn coord_conversion_roundtrip() {
    for &p in both_perspectives().iter() {
        for row in 0..9 {
            for col in 0..9 {
                let c = relative::Coord { row, col };
                assert_eq!(to_relative_coord(to_absolute_coord(c, p), p), c);
            }
        }
    }
}

#[test]
fn board_conversion_is_dense() {
    let empty = absolute::Board::new();
    for &p in both_perspectives().iter() {
        let rel = to_relative_board(&empty, p);
        assert_eq!(rel.cells.len(), 81);
        assert!(rel.cells.iter().all(|c| c.is_none()));
    }
}

#[test]
fn board_conversion_roundtrip() {
    let board = absolute::yhuap_initial_board();
    for &p in both_perspectives().iter() {
        let back = to_absolute_board(&to_relative_board(&board, p), p);
        assert_eq!(back, board);
    }
}

#[test]
fn initial_layout_cross_check() {
    let converted = to_absolute_board(
        &relative::yhuap_initial_board_where_black_king_points_upward(),
        Perspective::IaIsDownAndPointsUpward,
    );
    assert_eq!(converted, absolute::yhuap_initial_board());
}

#[test]
fn initial_layout_cross_check_red_up() {
    let converted = to_absolute_board(
        &relative::yhuap_initial_board_where_red_king_points_upward(),
        Perspective::IaIsUpAndPointsDownward,
    );
    assert_eq!(converted, absolute::yhuap_initial_board());
}

#[test]
fn initial_board_known_squares() {
    let board = absolute::yhuap_initial_board();
    assert_eq!(
        board.get(absolute::Coord(absolute::Row::O, absolute::Column::Z)),
        Some(absolute::Piece::Tam2)
    );
    assert_eq!(
        board.get(absolute::Coord(absolute::Row::IA, absolute::Column::Z)),
        Some(absolute::Piece::NonTam2Piece {
            prof: Profession::Io,
            color: Color::Huok2,
            side: absolute::Side::IASide,
        })
    );
    assert_eq!(
        board.get(absolute::Coord(absolute::Row::A, absolute::Column::Z)),
        Some(absolute::Piece::NonTam2Piece {
            prof: Profession::Io,
            color: Color::Kok1,
            side: absolute::Side::ASide,
        })
    );
    assert_eq!(
        board.get(absolute::Coord(absolute::Row::U, absolute::Column::Z)),
        None
    );
}

#[test]
fn initial_board_has_49_pieces() {
    let board = absolute::yhuap_initial_board();
    let occupied = board.squares.iter().filter(|c| c.is_some()).count();
    assert_eq!(occupied, 49);
    let rel = relative::yhuap_initial_board_where_black_king_points_upward();
    let occupied_rel = rel.cells.iter().filter(|c| c.is_some()).count();
    assert_eq!(occupied_rel, 49);
}

#[test]
fn field_conversion_routes_reserves_by_side() {
    let mut field = absolute::Field {
        board: absolute::yhuap_initial_board(),
        a_side_hop1zuo1: Vec::new(),
        ia_side_hop1zuo1: Vec::new(),
    };
    field.insert_nontam_piece_into_hop1zuo1(
        Color::Kok1,
        Profession::Kauk2,
        absolute::Side::ASide,
    );
    field.insert_nontam_piece_into_hop1zuo1(
        Color::Huok2,
        Profession::Gua2,
        absolute::Side::IASide,
    );

    let rel = to_relative_field(field.clone(), Perspective::IaIsDownAndPointsUpward);
    // Under this perspective the IA side is the egocentric "self".
    assert_eq!(
        rel.hop1zuo1of_upward,
        vec![relative::NonTam2PieceUpward {
            color: Color::Huok2,
            prof: Profession::Gua2,
        }]
    );
    assert_eq!(
        rel.hop1zuo1of_downward,
        vec![relative::NonTam2PieceDownward {
            color: Color::Kok1,
            prof: Profession::Kauk2,
        }]
    );

    let rel2 = to_relative_field(field.clone(), Perspective::IaIsUpAndPointsDownward);
    assert_eq!(
        rel2.hop1zuo1of_upward,
        vec![relative::NonTam2PieceUpward {
            color: Color::Kok1,
            prof: Profession::Kauk2,
        }]
    );
    assert_eq!(
        rel2.hop1zuo1of_downward,
        vec![relative::NonTam2PieceDownward {
            color: Color::Huok2,
            prof: Profession::Gua2,
        }]
    );
}

#[test]
fn field_conversion_roundtrip() {
    let mut field = absolute::Field {
        board: absolute::yhuap_initial_board(),
        a_side_hop1zuo1: Vec::new(),
        ia_side_hop1zuo1: Vec::new(),
    };
    field.insert_nontam_piece_into_hop1zuo1(
        Color::Kok1,
        Profession::Dau2,
        absolute::Side::ASide,
    );
    field.insert_nontam_piece_into_hop1zuo1(
        Color::Huok2,
        Profession::Tuk2,
        absolute::Side::IASide,
    );
    for &p in both_perspectives().iter() {
        let back = to_absolute_field(to_relative_field(field.clone(), p), p);
        assert_eq!(back, field);
    }
}

#[test]
fn relative_field_conversion_roundtrip() {
    let mut field = relative::Field {
        current_board: relative::yhuap_initial_board_where_black_king_points_upward(),
        hop1zuo1of_upward: Vec::new(),
        hop1zuo1of_downward: Vec::new(),
    };
    field.insert_nontam_piece_into_hop1zuo1(
        Color::Kok1,
        Profession::Kauk2,
        relative::Side::Upward,
    );
    for &p in both_perspectives().iter() {
        let back = to_relative_field(to_absolute_field(field.clone(), p), p);
        assert_eq!(back, field);
    }
}
