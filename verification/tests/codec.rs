//! Tests for the color, profession and coordinate codecs.

use cetkaik_core::absolute::{parse_coord, parse_nontam2piece, parse_side, serialize_coord};
use cetkaik_core::absolute::{Column, Coord, NonTam2Piece, Row, Side};
use cetkaik_core::{parse_color, parse_profession, serialize_color, serialize_prof};
use cetkaik_core::{Color, Profession};

#[test]
fn serialize_color_tokens() {
    assert_eq!(serialize_color(Color::Kok1), "赤");
    assert_eq!(serialize_color(Color::Huok2), "黒");
}

#[test]
fn serialize_prof_tokens() {
    assert_eq!(serialize_prof(Profession::Nuak1), "船");
    assert_eq!(serialize_prof(Profession::Kaun1), "車");
    assert_eq!(serialize_prof(Profession::Io), "王");
}

#[test]
fn parse_profession_synonyms() {
    assert_eq!(parse_profession("船"), Some(Profession::Nuak1));
    assert_eq!(parse_profession("elmer"), Some(Profession::Kauk2));
    assert_eq!(parse_profession("车"), Some(Profession::Kaun1));
    assert_eq!(parse_profession("uai1"), Some(Profession::Uai1));
    assert_eq!(parse_profession("king"), Some(Profession::Io));
    assert_eq!(parse_profession("nonsense"), None);
    assert_eq!(parse_profession(""), None);
}

#[test]
fn parse_profession_is_case_insensitive() {
    assert_eq!(parse_profession("VESSEL"), Some(Profession::Nuak1));
    assert_eq!(parse_profession("Tiger"), Some(Profession::Dau2));
    assert_eq!(parse_profession("DAU2"), Some(Profession::Dau2));
}

#[test]
fn parse_profession_via_from_str() {
    assert_eq!("船".parse(), Ok(Profession::Nuak1));
    assert_eq!("elmer".parse(), Ok(Profession::Kauk2));
    assert_eq!("xxxx".parse::<Profession>(), Err(()));
}

#[test]
fn parse_color_synonyms() {
    assert_eq!(parse_color("red"), Some(Color::Kok1));
    assert_eq!(parse_color("赤"), Some(Color::Kok1));
    assert_eq!(parse_color("紅"), Some(Color::Kok1));
    assert_eq!(parse_color("black"), Some(Color::Huok2));
    assert_eq!(parse_color("黑"), Some(Color::Huok2));
    assert_eq!(parse_color("RED"), Some(Color::Kok1));
    assert_eq!(parse_color("green"), None);
}

#[test]
fn parse_color_via_from_str() {
    assert_eq!("black".parse(), Ok(Color::Huok2));
    assert_eq!("pink".parse::<Color>(), Err(()));
}

#[test]
fn parse_coord_accepts_labels() {
    assert_eq!(parse_coord("LIA"), Some(Coord(Row::IA, Column::L)));
    assert_eq!(parse_coord("KA"), Some(Coord(Row::A, Column::K)));
    assert_eq!(parse_coord("ZO"), Some(Coord(Row::O, Column::Z)));
}

#[test]
fn parse_coord_is_case_sensitive() {
    assert_eq!(parse_coord("LiA"), None);
    assert_eq!(parse_coord("lia"), None);
}

#[test]
fn parse_coord_rejects_malformed_labels() {
    assert_eq!(parse_coord(""), None);
    assert_eq!(parse_coord("Z"), None);
    assert_eq!(parse_coord("ZAUI"), None);
    assert_eq!(parse_coord("QA"), None);
    assert_eq!(parse_coord("ZQ"), None);
    assert_eq!(parse_coord("AZ"), None);
}

#[test]
fn serialize_coord_renders_labels() {
    assert_eq!(serialize_coord(Coord(Row::E, Column::N)), "NE");
    assert_eq!(serialize_coord(Coord(Row::AU, Column::Z)), "ZAU");
}

#[test]
fn coord_label_scenario_ne() {
    let c = parse_coord("NE").unwrap();
    assert_eq!(c, Coord(Row::E, Column::N));
    assert_eq!(serialize_coord(c), "NE");
}

#[test]
fn coord_label_scenario_zau() {
    let c = parse_coord("ZAU").unwrap();
    assert_eq!(c, Coord(Row::AU, Column::Z));
    assert_eq!(serialize_coord(c), "ZAU");
}

#[test]
fn coord_roundtrip_all_squares() {
    let rows = [
        Row::A,
        Row::E,
        Row::I,
        Row::U,
        Row::O,
        Row::Y,
        Row::AI,
        Row::AU,
        Row::IA,
    ];
    let cols = [
        Column::K,
        Column::L,
        Column::N,
        Column::T,
        Column::Z,
        Column::X,
        Column::C,
        Column::M,
        Column::P,
    ];
    for &row in rows.iter() {
        for &col in cols.iter() {
            let c = Coord(row, col);
            assert_eq!(parse_coord(&serialize_coord(c)), Some(c));
        }
    }
}

#[test]
fn coord_via_from_str() {
    assert_eq!("LIA".parse(), Ok(Coord(Row::IA, Column::L)));
    assert_eq!("??".parse::<Coord>(), Err(()));
}

#[test]
fn parse_side_labels() {
    assert_eq!(parse_side("A"), Some(Side::ASide));
    assert_eq!(parse_side("IA"), Some(Side::IASide));
    assert_eq!(parse_side("B"), None);
    assert_eq!("A".parse(), Ok(Side::ASide));
    assert_eq!("ia".parse::<Side>(), Err(()));
}

#[test]
fn nontam2piece_text_roundtrip() {
    let p = NonTam2Piece {
        color: Color::Huok2,
        prof: Profession::Kauk2,
    };
    assert_eq!(p.to_text(), "黒兵");
    assert_eq!(parse_nontam2piece("黒兵"), Some(p));
    assert_eq!(
        parse_nontam2piece("赤船"),
        Some(NonTam2Piece {
            color: Color::Kok1,
            prof: Profession::Nuak1,
        })
    );
    assert_eq!(parse_nontam2piece("皇"), None);
    assert_eq!(parse_nontam2piece("黒"), None);
    assert_eq!(parse_nontam2piece("兵黒"), None);
}
