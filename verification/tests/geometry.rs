//! Tests for the geometry predicates: distance, water squares and
//! rotation.

use cetkaik_core::absolute;
use cetkaik_core::absolute::{Column, Row};
use cetkaik_core::perspective::{to_relative_coord, Perspective};
use cetkaik_core::relative;
use cetkaik_core::relative::{rotate_coord, Coord};

fn rel(row: usize, col: usize) -> Coord {
    Coord { row, col }
}

#[test]
fn relative_distance_examples() {
    assert_eq!(5, relative::distance(rel(4, 5), rel(4, 0)));
    assert_eq!(3, relative::distance(rel(4, 5), rel(1, 2)));
    assert_eq!(3, relative::distance(rel(1, 2), rel(4, 5)));
}

#[test]
fn relative_distance_symmetry_and_self() {
    for r1 in 0..9 {
        for c1 in 0..9 {
            assert_eq!(0, relative::distance(rel(r1, c1), rel(r1, c1)));
            for r2 in 0..9 {
                for c2 in 0..9 {
                    assert_eq!(
                        relative::distance(rel(r1, c1), rel(r2, c2)),
                        relative::distance(rel(r2, c2), rel(r1, c1))
                    );
                }
            }
        }
    }
}

#[test]
fn absolute_distance_examples() {
    assert_eq!(
        2,
        absolute::distance(
            absolute::Coord(Row::A, Column::K),
            absolute::Coord(Row::I, Column::N)
        )
    );
    assert_eq!(
        2,
        absolute::distance(
            absolute::Coord(Row::I, Column::K),
            absolute::Coord(Row::I, Column::N)
        )
    );
    assert_eq!(
        2,
        absolute::distance(
            absolute::Coord(Row::A, Column::K),
            absolute::Coord(Row::E, Column::N)
        )
    );
}

#[test]
fn relative_water_squares() {
    assert!(relative::is_water(rel(4, 2)));
    assert!(relative::is_water(rel(4, 6)));
    assert!(relative::is_water(rel(2, 4)));
    assert!(relative::is_water(rel(6, 4)));
    assert!(relative::is_water(rel(4, 4)));
    assert!(!relative::is_water(rel(0, 0)));
    assert!(!relative::is_water(rel(2, 2)));
}

#[test]
fn relative_water_count_is_nine() {
    let mut count = 0;
    for row in 0..9 {
        for col in 0..9 {
            if relative::is_water(rel(row, col)) {
                count += 1;
            }
        }
    }
    assert_eq!(count, 9);
}

#[test]
fn absolute_water_count_is_nine() {
    let mut count = 0;
    for &row in all_rows().iter() {
        for &col in all_cols().iter() {
            if absolute::is_water(absolute::Coord(row, col)) {
                count += 1;
            }
        }
    }
    assert_eq!(count, 9);
}

#[test]
fn water_agreement_under_both_perspectives() {
    for &p in [
        Perspective::IaIsDownAndPointsUpward,
        Perspective::IaIsUpAndPointsDownward,
    ]
    .iter()
    {
        for &row in all_rows().iter() {
            for &col in all_cols().iter() {
                let a = absolute::Coord(row, col);
                assert_eq!(absolute::is_water(a), relative::is_water(to_relative_coord(a, p)));
            }
        }
    }
}

#[test]
fn rotate_coord_examples() {
    assert_eq!(rotate_coord(rel(0, 0)), rel(8, 8));
    assert_eq!(rotate_coord(rel(2, 4)), rel(6, 4));
}

#[test]
fn rotate_coord_involution() {
    for row in 0..9 {
        for col in 0..9 {
            let c = rel(row, col);
            assert_eq!(rotate_coord(rotate_coord(c)), c);
        }
    }
}

#[test]
fn rotate_board_involution() {
    let b = relative::yhuap_initial_board_where_black_king_points_upward();
    let rotated_twice = relative::rotate_board(relative::rotate_board(b.clone()));
    assert_eq!(rotated_twice, b);
}

fn all_rows() -> [Row; 9] {
    [
        Row::A,
        Row::E,
        Row::I,
        Row::U,
        Row::O,
        Row::Y,
        Row::AI,
        Row::AU,
        Row::IA,
    ]
}

fn all_cols() -> [Column; 9] {
    [
        Column::K,
        Column::L,
        Column::N,
        Column::T,
        Column::Z,
        Column::X,
        Column::C,
        Column::M,
        Column::P,
    ]
}
