//! The absolute coordinate frame: squares are addressed by fixed board
//! labels (a column letter and a row name), and pieces belong to the
//! two players under their fixed identities.

use crate::{Color, Profession};
use vstd::prelude::*;
use vstd::seq_lib::*;

verus! {

/// Describes which player it is, by the fixed identity established at
/// game start.
#[derive(Eq, PartialEq, Clone, Copy, Debug, Hash, Structural)]
pub enum Side {
    /// The player whose pieces lie in the A, E and I rows when the game
    /// starts.
    ASide,
    /// The player whose pieces lie in the IA, AU and AI rows when the
    /// game starts.
    IASide,
}

impl Side {
    /// The other side.
    pub open spec fn spec_not(self) -> Side {
        match self {
            Side::ASide => Side::IASide,
            Side::IASide => Side::ASide,
        }
    }

    /// Flips the side, exchanging the two players.
    #[must_use]
    pub fn not(self) -> (r: Side)
        ensures
            r == self.spec_not(),
    {
        match self {
            Side::ASide => Side::IASide,
            Side::IASide => Side::ASide,
        }
    }
}

/// Flipping a side twice yields the original side.
pub proof fn lemma_side_not_involution(s: Side)
    ensures
        s.spec_not().spec_not() == s,
{
}

/// Which side a side label names: `A` or `IA`, exactly.
pub open spec fn spec_parse_side(s: Seq<char>) -> Option<Side> {
    if s == "A"@ {
        Some(Side::ASide)
    } else if s == "IA"@ {
        Some(Side::IASide)
    } else {
        None
    }
}

/// Parses a [`Side`] from its label, `A` or `IA`.
#[must_use]
pub fn parse_side(s: &str) -> (r: Option<Side>)
    ensures
        r == spec_parse_side(s@),
{
    if crate::str_eq(s, "A") {
        Some(Side::ASide)
    } else if crate::str_eq(s, "IA") {
        Some(Side::IASide)
    } else {
        None
    }
}

impl core::str::FromStr for Side {
    type Err = ();

    fn from_str(s: &str) -> Result<Self, Self::Err> {
        match parse_side(s) {
            Some(side) => Ok(side),
            None => Err(()),
        }
    }
}

/// Describes the row (the horizontal rank) of the board.
#[derive(PartialEq, Eq, Hash, Clone, Copy, Debug, Structural)]
#[allow(missing_docs)]
pub enum Row {
    A,
    E,
    I,
    U,
    O,
    Y,
    AI,
    AU,
    IA,
}

/// Describes the column (the vertical file) of the board.
#[derive(PartialEq, Eq, Hash, Clone, Copy, Debug, Structural)]
#[allow(missing_docs)]
pub enum Column {
    K,
    L,
    N,
    T,
    Z,
    X,
    C,
    M,
    P,
}

/// The position of a row in the fixed label ordering, 0 through 8:
/// row A is nearest the A side, row IA nearest the IA side.
pub open spec fn row_index(r: Row) -> int {
    match r {
        Row::A => 0,
        Row::E => 1,
        Row::I => 2,
        Row::U => 3,
        Row::O => 4,
        Row::Y => 5,
        Row::AI => 6,
        Row::AU => 7,
        Row::IA => 8,
    }
}

/// The position of a column in the fixed label ordering, 0 through 8.
pub open spec fn col_index(c: Column) -> int {
    match c {
        Column::K => 0,
        Column::L => 1,
        Column::N => 2,
        Column::T => 3,
        Column::Z => 4,
        Column::X => 5,
        Column::C => 6,
        Column::M => 7,
        Column::P => 8,
    }
}

/// The row at a given position of the fixed label ordering.
pub open spec fn row_of_index(i: int) -> Row {
    if i == 0 {
        Row::A
    } else if i == 1 {
        Row::E
    } else if i == 2 {
        Row::I
    } else if i == 3 {
        Row::U
    } else if i == 4 {
        Row::O
    } else if i == 5 {
        Row::Y
    } else if i == 6 {
        Row::AI
    } else if i == 7 {
        Row::AU
    } else {
        Row::IA
    }
}

/// The column at a given position of the fixed label ordering.
pub open spec fn col_of_index(i: int) -> Column {
    if i == 0 {
        Column::K
    } else if i == 1 {
        Column::L
    } else if i == 2 {
        Column::N
    } else if i == 3 {
        Column::T
    } else if i == 4 {
        Column::Z
    } else if i == 5 {
        Column::X
    } else if i == 6 {
        Column::C
    } else if i == 7 {
        Column::M
    } else {
        Column::P
    }
}

pub(crate) fn row_from_index(i: usize) -> (r: Row)
    requires
        i < 9,
    ensures
        r == row_of_index(i as int),
        row_index(r) == i,
{
    if i == 0 {
        Row::A
    } else if i == 1 {
        Row::E
    } else if i == 2 {
        Row::I
    } else if i == 3 {
        Row::U
    } else if i == 4 {
        Row::O
    } else if i == 5 {
        Row::Y
    } else if i == 6 {
        Row::AI
    } else if i == 7 {
        Row::AU
    } else {
        Row::IA
    }
}

pub(crate) fn col_from_index(i: usize) -> (r: Column)
    requires
        i < 9,
    ensures
        r == col_of_index(i as int),
        col_index(r) == i,
{
    if i == 0 {
        Column::K
    } else if i == 1 {
        Column::L
    } else if i == 2 {
        Column::N
    } else if i == 3 {
        Column::T
    } else if i == 4 {
        Column::Z
    } else if i == 5 {
        Column::X
    } else if i == 6 {
        Column::C
    } else if i == 7 {
        Column::M
    } else {
        Column::P
    }
}

pub(crate) fn row_number(r: Row) -> (i: usize)
    ensures
        i == row_index(r),
        i < 9,
{
    match r {
        Row::A => 0,
        Row::E => 1,
        Row::I => 2,
        Row::U => 3,
        Row::O => 4,
        Row::Y => 5,
        Row::AI => 6,
        Row::AU => 7,
        Row::IA => 8,
    }
}

pub(crate) fn col_number(c: Column) -> (i: usize)
    ensures
        i == col_index(c),
        i < 9,
{
    match c {
        Column::K => 0,
        Column::L => 1,
        Column::N => 2,
        Column::T => 3,
        Column::Z => 4,
        Column::X => 5,
        Column::C => 6,
        Column::M => 7,
        Column::P => 8,
    }
}

/// Describes the absolute coordinate of a square: a row and a column
/// label.
#[derive(Clone, Debug, Eq, Hash, PartialEq, Copy, Structural)]
pub struct Coord(pub Row, pub Column);

/// The flat position of a coordinate among the 81 squares, row by row.
pub open spec fn coord_index(c: Coord) -> int {
    row_index(c.0) * 9 + col_index(c.1)
}

/// Two distinct coordinates occupy distinct flat positions.
pub proof fn lemma_coord_index_injective(c1: Coord, c2: Coord)
    requires
        coord_index(c1) == coord_index(c2),
    ensures
        c1 == c2,
{
    assert(0 <= col_index(c1.1) < 9);
    assert(0 <= col_index(c2.1) < 9);
    assert(row_index(c1.0) == row_index(c2.0) && col_index(c1.1) == col_index(c2.1));
}

/// Describes a piece on the board.
#[derive(Copy, Clone, Debug, Eq, PartialEq, Hash, Structural)]
pub enum Piece {
    /// Tam2, a special piece belonging to both sides. Both players can
    /// move it; it has neither color nor profession nor side.
    Tam2,
    /// All the other usual pieces, each belonging to a single side.
    NonTam2Piece {
        /// color of the piece
        color: Color,
        /// profession of the piece
        prof: Profession,
        /// which side the piece belongs to
        side: Side,
    },
}

impl Piece {
    /// Whether the piece is the Tam2.
    pub open spec fn spec_is_tam2(self) -> bool {
        self is Tam2
    }

    /// Whether the piece is a non-Tam2 piece of the given color.
    pub open spec fn spec_has_color(self, clr: Color) -> bool {
        match self {
            Piece::Tam2 => false,
            Piece::NonTam2Piece { color, .. } => color == clr,
        }
    }

    /// Whether the piece is a non-Tam2 piece of the given profession.
    pub open spec fn spec_has_prof(self, prf: Profession) -> bool {
        match self {
            Piece::Tam2 => false,
            Piece::NonTam2Piece { prof, .. } => prof == prf,
        }
    }

    /// Whether the piece is a non-Tam2 piece of the given side.
    pub open spec fn spec_has_side(self, sid: Side) -> bool {
        match self {
            Piece::Tam2 => false,
            Piece::NonTam2Piece { side, .. } => side == sid,
        }
    }

    /// Checks whether the piece is a Tam2.
    #[must_use]
    pub fn is_tam2(self) -> (r: bool)
        ensures
            r == self.spec_is_tam2(),
    {
        match self {
            Piece::Tam2 => true,
            Piece::NonTam2Piece { .. } => false,
        }
    }

    /// Checks whether the piece has a specific color. Tam2 has neither
    /// color.
    #[must_use]
    pub fn has_color(self, clr: Color) -> (r: bool)
        ensures
            r == self.spec_has_color(clr),
    {
        match self {
            Piece::Tam2 => false,
            Piece::NonTam2Piece { color, .. } => color == clr,
        }
    }

    /// Checks whether the piece has a specific profession. Tam2 has no
    /// profession.
    #[must_use]
    pub fn has_prof(self, prf: Profession) -> (r: bool)
        ensures
            r == self.spec_has_prof(prf),
    {
        match self {
            Piece::Tam2 => false,
            Piece::NonTam2Piece { prof, .. } => prof == prf,
        }
    }

    /// Checks whether the piece belongs to a specific side. Tam2 belongs
    /// to neither side.
    #[must_use]
    pub fn has_side(self, sid: Side) -> (r: bool)
        ensures
            r == self.spec_has_side(sid),
    {
        match self {
            Piece::Tam2 => false,
            Piece::NonTam2Piece { side, .. } => side == sid,
        }
    }
}

/// The nine restricted "water" squares, named by their labels: the band
/// N, T, Z, X, C of row O together with column Z of rows I, U, Y and
/// AI.
pub open spec fn spec_is_water(c: Coord) -> bool {
    match c.0 {
        Row::O => c.1 == Column::N || c.1 == Column::T || c.1 == Column::Z || c.1 == Column::X
            || c.1 == Column::C,
        Row::I | Row::U | Row::Y | Row::AI => c.1 == Column::Z,
        _ => false,
    }
}

/// Checks if the square is a tam2 nua2 (tam2's water), entry to which
/// is restricted.
#[must_use]
pub fn is_water(c: Coord) -> (r: bool)
    ensures
        r == spec_is_water(c),
{
    match c.0 {
        Row::O => c.1 == Column::N || c.1 == Column::T || c.1 == Column::Z || c.1 == Column::X
            || c.1 == Column::C,
        Row::I | Row::U | Row::Y | Row::AI => c.1 == Column::Z,
        _ => false,
    }
}

/// The set of coordinates on which the water predicate holds.
pub open spec fn spec_water_squares() -> Set<Coord> {
    Set::new(|c: Coord| spec_is_water(c))
}

/// The water predicate holds on exactly nine squares of the board.
pub proof fn lemma_water_count()
    ensures
        spec_water_squares().finite(),
        spec_water_squares().len() == 9,
{
    let explicit = set![
        Coord(Row::O, Column::N),
        Coord(Row::O, Column::T),
        Coord(Row::O, Column::Z),
        Coord(Row::O, Column::X),
        Coord(Row::O, Column::C),
        Coord(Row::I, Column::Z),
        Coord(Row::U, Column::Z),
        Coord(Row::Y, Column::Z),
        Coord(Row::AI, Column::Z),
    ];
    assert(spec_water_squares() =~= explicit);
    assert(explicit.len() == 9);
}

/// The label-based water predicate agrees with the index-based one of
/// the relative frame, at the matching indices.
pub proof fn lemma_is_water_indices(c: Coord)
    ensures
        spec_is_water(c) == crate::relative::spec_is_water(row_index(c.0), col_index(c.1)),
{
}

/// The Chebyshev distance between two absolute coordinates: the larger
/// of the distances between their rows and between their columns in the
/// fixed label ordering.
pub open spec fn spec_distance(a: Coord, b: Coord) -> int {
    let dr = if row_index(a.0) >= row_index(b.0) {
        row_index(a.0) - row_index(b.0)
    } else {
        row_index(b.0) - row_index(a.0)
    };
    let dc = if col_index(a.1) >= col_index(b.1) {
        col_index(a.1) - col_index(b.1)
    } else {
        col_index(b.1) - col_index(a.1)
    };
    if dr >= dc {
        dr
    } else {
        dc
    }
}

/// Calculates the distance between two points: the larger of the row
/// difference and the column difference. The result does not depend on
/// the coordinate frame, so it is computed in the relative one under an
/// arbitrarily chosen perspective.
#[must_use]
pub fn distance(a: Coord, b: Coord) -> (r: i32)
    ensures
        r == spec_distance(a, b),
        0 <= r <= 8,
{
    crate::relative::distance(
        crate::perspective::to_relative_coord(
            a,
            crate::perspective::Perspective::IaIsDownAndPointsUpward,
        ),
        crate::perspective::to_relative_coord(
            b,
            crate::perspective::Perspective::IaIsDownAndPointsUpward,
        ),
    )
}

/// The distance does not depend on the order of its arguments.
pub proof fn lemma_distance_symmetric(a: Coord, b: Coord)
    ensures
        spec_distance(a, b) == spec_distance(b, a),
{
}

/// The distance from a coordinate to itself is zero.
pub proof fn lemma_distance_self(a: Coord)
    ensures
        spec_distance(a, a) == 0,
{
}

/// Describes a piece that is not a Tam2, and hence can be captured and
/// sit in a hop1zuo1.
#[derive(Copy, Clone, Debug, Eq, PartialEq, Hash, Structural)]
pub struct NonTam2Piece {
    /// color of the piece
    pub color: Color,
    /// profession of the piece
    pub prof: Profession,
}

impl NonTam2Piece {
    /// The two-character display token of the piece: its color's token
    /// followed by its profession's token.
    #[must_use]
    pub fn to_text(&self) -> (r: String)
        ensures
            r@ == crate::spec_color_str(self.color) + crate::spec_prof_str(self.prof),
    {
        let mut s = String::from_str(crate::serialize_color(self.color));
        s.append(crate::serialize_prof(self.prof));
        s
    }
}

/// Which color a single display character names.
pub open spec fn spec_color_of_char(c: char) -> Option<Color> {
    if c == '黒' {
        Some(Color::Huok2)
    } else if c == '赤' {
        Some(Color::Kok1)
    } else {
        None
    }
}

/// Which profession a single display character names.
pub open spec fn spec_prof_of_char(c: char) -> Option<Profession> {
    if c == '船' {
        Some(Profession::Nuak1)
    } else if c == '兵' {
        Some(Profession::Kauk2)
    } else if c == '弓' {
        Some(Profession::Gua2)
    } else if c == '車' {
        Some(Profession::Kaun1)
    } else if c == '虎' {
        Some(Profession::Dau2)
    } else if c == '馬' {
        Some(Profession::Maun1)
    } else if c == '筆' {
        Some(Profession::Kua2)
    } else if c == '巫' {
        Some(Profession::Tuk2)
    } else if c == '将' {
        Some(Profession::Uai1)
    } else if c == '王' {
        Some(Profession::Io)
    } else {
        None
    }
}

/// Which non-Tam2 piece a two-character token names: a color character
/// followed by a profession character, exactly.
pub open spec fn spec_parse_nontam2piece(s: Seq<char>) -> Option<NonTam2Piece> {
    if s.len() != 2 {
        None
    } else {
        match spec_color_of_char(s[0]) {
            None => None,
            Some(color) => match spec_prof_of_char(s[1]) {
                None => None,
                Some(prof) => Some(NonTam2Piece { color, prof }),
            },
        }
    }
}

fn color_of_char(c: char) -> (r: Option<Color>)
    ensures
        r == spec_color_of_char(c),
{
    if c == '黒' {
        Some(Color::Huok2)
    } else if c == '赤' {
        Some(Color::Kok1)
    } else {
        None
    }
}

fn prof_of_char(c: char) -> (r: Option<Profession>)
    ensures
        r == spec_prof_of_char(c),
{
    if c == '船' {
        Some(Profession::Nuak1)
    } else if c == '兵' {
        Some(Profession::Kauk2)
    } else if c == '弓' {
        Some(Profession::Gua2)
    } else if c == '車' {
        Some(Profession::Kaun1)
    } else if c == '虎' {
        Some(Profession::Dau2)
    } else if c == '馬' {
        Some(Profession::Maun1)
    } else if c == '筆' {
        Some(Profession::Kua2)
    } else if c == '巫' {
        Some(Profession::Tuk2)
    } else if c == '将' {
        Some(Profession::Uai1)
    } else if c == '王' {
        Some(Profession::Io)
    } else {
        None
    }
}

/// Parses a [`NonTam2Piece`] from its two-character display token, such
/// as the token produced by [`NonTam2Piece::to_text`].
#[must_use]
pub fn parse_nontam2piece(s: &str) -> (r: Option<NonTam2Piece>)
    ensures
        r == spec_parse_nontam2piece(s@),
{
    let n = s.unicode_len();
    if n != 2 {
        return None;
    }
    let color = match color_of_char(s.get_char(0)) {
        Some(c) => c,
        None => {
            return None;
        },
    };
    let prof = match prof_of_char(s.get_char(1)) {
        Some(p) => p,
        None => {
            return None;
        },
    };
    Some(NonTam2Piece { color, prof })
}

/// The single letter that stands for a column.
pub open spec fn spec_col_char(c: Column) -> char {
    match c {
        Column::K => 'K',
        Column::L => 'L',
        Column::N => 'N',
        Column::T => 'T',
        Column::Z => 'Z',
        Column::X => 'X',
        Column::C => 'C',
        Column::M => 'M',
        Column::P => 'P',
    }
}

/// The one or two letters that stand for a row.
pub open spec fn spec_row_str(r: Row) -> Seq<char> {
    match r {
        Row::A => seq!['A'],
        Row::E => seq!['E'],
        Row::I => seq!['I'],
        Row::U => seq!['U'],
        Row::O => seq!['O'],
        Row::Y => seq!['Y'],
        Row::AI => seq!['A', 'I'],
        Row::AU => seq!['A', 'U'],
        Row::IA => seq!['I', 'A'],
    }
}

/// The label of a coordinate: its column letter followed by its row
/// letters.
pub open spec fn spec_serialize_coord(c: Coord) -> Seq<char> {
    seq![spec_col_char(c.1)] + spec_row_str(c.0)
}

fn column_letter(c: Column) -> (r: &'static str)
    ensures
        r@ =~= seq![spec_col_char(c)],
{
    proof {
        reveal_strlit("K");
        reveal_strlit("L");
        reveal_strlit("N");
        reveal_strlit("T");
        reveal_strlit("Z");
        reveal_strlit("X");
        reveal_strlit("C");
        reveal_strlit("M");
        reveal_strlit("P");
    }
    match c {
        Column::K => "K",
        Column::L => "L",
        Column::N => "N",
        Column::T => "T",
        Column::Z => "Z",
        Column::X => "X",
        Column::C => "C",
        Column::M => "M",
        Column::P => "P",
    }
}

fn row_letters(r: Row) -> (s: &'static str)
    ensures
        s@ =~= spec_row_str(r),
{
    proof {
        reveal_strlit("A");
        reveal_strlit("E");
        reveal_strlit("I");
        reveal_strlit("U");
        reveal_strlit("O");
        reveal_strlit("Y");
        reveal_strlit("AI");
        reveal_strlit("AU");
        reveal_strlit("IA");
    }
    match r {
        Row::A => "A",
        Row::E => "E",
        Row::I => "I",
        Row::U => "U",
        Row::O => "O",
        Row::Y => "Y",
        Row::AI => "AI",
        Row::AU => "AU",
        Row::IA => "IA",
    }
}

/// Serializes a [`Coord`] as its label, e.g. `NE` or `ZAU`.
#[must_use]
pub fn serialize_coord(coord: Coord) -> (r: String)
    ensures
        r@ == spec_serialize_coord(coord),
{
    let mut s = String::from_str(column_letter(coord.1));
    s.append(row_letters(coord.0));
    proof {
        assert(s@ =~= spec_serialize_coord(coord));
    }
    s
}

/// Which column a label's first character names.
pub open spec fn spec_col_of_char(c: char) -> Option<Column> {
    if c == 'C' {
        Some(Column::C)
    } else if c == 'K' {
        Some(Column::K)
    } else if c == 'L' {
        Some(Column::L)
    } else if c == 'M' {
        Some(Column::M)
    } else if c == 'N' {
        Some(Column::N)
    } else if c == 'P' {
        Some(Column::P)
    } else if c == 'T' {
        Some(Column::T)
    } else if c == 'X' {
        Some(Column::X)
    } else if c == 'Z' {
        Some(Column::Z)
    } else {
        None
    }
}

/// Which row a one-character row label names.
pub open spec fn spec_row_of_single(c: char) -> Option<Row> {
    if c == 'A' {
        Some(Row::A)
    } else if c == 'E' {
        Some(Row::E)
    } else if c == 'I' {
        Some(Row::I)
    } else if c == 'O' {
        Some(Row::O)
    } else if c == 'U' {
        Some(Row::U)
    } else if c == 'Y' {
        Some(Row::Y)
    } else {
        None
    }
}

/// Which row a two-character row label names.
pub open spec fn spec_row_of_pair(c1: char, c2: char) -> Option<Row> {
    if c1 == 'A' && c2 == 'I' {
        Some(Row::AI)
    } else if c1 == 'A' && c2 == 'U' {
        Some(Row::AU)
    } else if c1 == 'I' && c2 == 'A' {
        Some(Row::IA)
    } else {
        None
    }
}

/// Which row the remainder of a label names: one or two characters,
/// matched exactly.
pub open spec fn spec_row_of_chars(t: Seq<char>) -> Option<Row> {
    if t.len() == 1 {
        spec_row_of_single(t[0])
    } else if t.len() == 2 {
        spec_row_of_pair(t[0], t[1])
    } else {
        None
    }
}

/// Which coordinate a label names. A label is 2 or 3 characters: a
/// column letter followed by a row name, matched exactly and
/// case-sensitively. Anything else, including the empty string and
/// anything longer than 3 characters, names no coordinate.
pub open spec fn spec_parse_coord(s: Seq<char>) -> Option<Coord> {
    if s.len() == 0 || s.len() > 3 {
        None
    } else {
        match spec_col_of_char(s[0]) {
            None => None,
            Some(col) => match spec_row_of_chars(s.subrange(1, s.len() as int)) {
                None => None,
                Some(row) => Some(Coord(row, col)),
            },
        }
    }
}

fn exec_col_of_char(c: char) -> (r: Option<Column>)
    ensures
        r == spec_col_of_char(c),
{
    if c == 'C' {
        Some(Column::C)
    } else if c == 'K' {
        Some(Column::K)
    } else if c == 'L' {
        Some(Column::L)
    } else if c == 'M' {
        Some(Column::M)
    } else if c == 'N' {
        Some(Column::N)
    } else if c == 'P' {
        Some(Column::P)
    } else if c == 'T' {
        Some(Column::T)
    } else if c == 'X' {
        Some(Column::X)
    } else if c == 'Z' {
        Some(Column::Z)
    } else {
        None
    }
}

fn exec_row_of_single(c: char) -> (r: Option<Row>)
    ensures
        r == spec_row_of_single(c),
{
    if c == 'A' {
        Some(Row::A)
    } else if c == 'E' {
        Some(Row::E)
    } else if c == 'I' {
        Some(Row::I)
    } else if c == 'O' {
        Some(Row::O)
    } else if c == 'U' {
        Some(Row::U)
    } else if c == 'Y' {
        Some(Row::Y)
    } else {
        None
    }
}

fn exec_row_of_pair(c1: char, c2: char) -> (r: Option<Row>)
    ensures
        r == spec_row_of_pair(c1, c2),
{
    if c1 == 'A' && c2 == 'I' {
        Some(Row::AI)
    } else if c1 == 'A' && c2 == 'U' {
        Some(Row::AU)
    } else if c1 == 'I' && c2 == 'A' {
        Some(Row::IA)
    } else {
        None
    }
}

/// Parses a [`Coord`] from its label; case-sensitive, exact matches
/// only.
#[must_use]
pub fn parse_coord(coord: &str) -> (r: Option<Coord>)
    ensures
        r == spec_parse_coord(coord@),
{
    let n = coord.unicode_len();
    if n == 0 || n > 3 {
        return None;
    }
    let col = match exec_col_of_char(coord.get_char(0)) {
        Some(c) => c,
        None => {
            return None;
        },
    };
    if n == 2 {
        let c1 = coord.get_char(1);
        proof {
            assert(coord@.subrange(1, 2)[0] == coord@[1]);
        }
        match exec_row_of_single(c1) {
            Some(row) => Some(Coord(row, col)),
            None => None,
        }
    } else if n == 3 {
        let c1 = coord.get_char(1);
        let c2 = coord.get_char(2);
        proof {
            assert(coord@.subrange(1, 3)[0] == coord@[1]);
            assert(coord@.subrange(1, 3)[1] == coord@[2]);
        }
        match exec_row_of_pair(c1, c2) {
            Some(row) => Some(Coord(row, col)),
            None => None,
        }
    } else {
        None
    }
}

impl core::str::FromStr for Coord {
    type Err = ();

    fn from_str(s: &str) -> Result<Self, Self::Err> {
        match parse_coord(s) {
            Some(c) => Ok(c),
            None => Err(()),
        }
    }
}

/// Parsing the label of any coordinate yields that coordinate back.
pub proof fn lemma_parse_serialize_roundtrip(c: Coord)
    ensures
        spec_parse_coord(spec_serialize_coord(c)) == Some(c),
{
    let s = spec_serialize_coord(c);
    assert(s[0] == spec_col_char(c.1));
    assert(spec_col_of_char(s[0]) == Some(c.1));
    assert(s.subrange(1, s.len() as int) =~= spec_row_str(c.0));
    assert(spec_row_of_chars(spec_row_str(c.0)) == Some(c.0));
}

/// Serializing the coordinate that a label parses to yields that label
/// back, character for character.
pub proof fn lemma_serialize_parse_roundtrip(s: Seq<char>, c: Coord)
    requires
        spec_parse_coord(s) == Some(c),
    ensures
        spec_serialize_coord(c) =~= s,
{
    let t = s.subrange(1, s.len() as int);
    assert(spec_col_of_char(s[0]) == Some(c.1));
    assert(seq![spec_col_char(c.1)] =~= seq![s[0]]);
    assert(spec_row_of_chars(t) == Some(c.0));
    assert(spec_row_str(c.0) =~= t);
    assert(seq![s[0]] + t =~= s);
}

/// Describes the board: a partial mapping from the 81 coordinates to
/// pieces. The square of coordinate `c` is stored at index
/// `coord_index(c)`; an empty entry denotes an empty square.
#[derive(Debug, Clone, PartialEq, Eq)]
pub struct Board {
    /// the 81 squares, row by row in the fixed label ordering
    pub squares: Vec<Option<Piece>>,
}

impl View for Board {
    type V = Seq<Option<Piece>>;

    open spec fn view(&self) -> Seq<Option<Piece>> {
        self.squares@
    }
}

impl Board {
    /// The board holds exactly 81 squares.
    pub open spec fn wf(self) -> bool {
        self@.len() == 81
    }

    /// The content of the square at the given coordinate.
    pub open spec fn piece_at(self, c: Coord) -> Option<Piece> {
        self@[coord_index(c)]
    }

    /// An empty board.
    #[must_use]
    pub fn new() -> (r: Board)
        ensures
            r.wf(),
            forall|c: Coord| r.piece_at(c) is None,
    {
        let mut squares: Vec<Option<Piece>> = Vec::new();
        let mut i: usize = 0;
        while i < 81
            invariant
                i <= 81,
                squares@.len() == i,
                forall|k: int| 0 <= k < i ==> squares@[k] is None,
            decreases 81 - i,
        {
            squares.push(None);
            i = i + 1;
        }
        Board { squares }
    }

    /// Reads the square at the given coordinate; `None` denotes an
    /// empty square.
    #[must_use]
    pub fn get(&self, c: Coord) -> (r: Option<Piece>)
        requires
            self.wf(),
        ensures
            r == self.piece_at(c),
    {
        let i = row_number(c.0) * 9 + col_number(c.1);
        self.squares[i]
    }

    /// Places a piece on the square at the given coordinate, replacing
    /// whatever was there.
    pub fn insert(&mut self, c: Coord, p: Piece)
        requires
            old(self).wf(),
        ensures
            final(self).wf(),
            final(self)@ == old(self)@.update(coord_index(c), Some(p)),
            final(self).piece_at(c) == Some(p),
            forall|c2: Coord| c2 != c ==> final(self).piece_at(c2) == old(self).piece_at(c2),
    {
        let i = row_number(c.0) * 9 + col_number(c.1);
        self.squares.set(i, Some(p));
        proof {
            assert forall|c2: Coord| c2 != c implies final(self).piece_at(c2) == old(
                self,
            ).piece_at(c2) by {
                if coord_index(c2) == coord_index(c) {
                    lemma_coord_index_injective(c2, c);
                }
            }
        }
    }

    /// Empties the square at the given coordinate and returns what was
    /// there.
    pub fn remove(&mut self, c: Coord) -> (r: Option<Piece>)
        requires
            old(self).wf(),
        ensures
            final(self).wf(),
            final(self)@ == old(self)@.update(coord_index(c), None),
            r == old(self).piece_at(c),
            final(self).piece_at(c) is None,
            forall|c2: Coord| c2 != c ==> final(self).piece_at(c2) == old(self).piece_at(c2),
    {
        let i = row_number(c.0) * 9 + col_number(c.1);
        let r = self.squares[i];
        self.squares.set(i, None);
        proof {
            assert forall|c2: Coord| c2 != c implies final(self).piece_at(c2) == old(
                self,
            ).piece_at(c2) by {
                if coord_index(c2) == coord_index(c) {
                    lemma_coord_index_injective(c2, c);
                }
            }
        }
        r
    }
}

/// A square occupied by the non-Tam2 piece with the given attributes.
pub open spec fn placed(color: Color, prof: Profession, side: Side) -> Option<Piece> {
    Some(Piece::NonTam2Piece { color, prof, side })
}

/// The initial configuration as specified in the y1 huap1 (the
/// standardized rule): what the square at the given coordinate holds.
/// The red king starts at ZA and the black king at ZIA; the Tam2 sits
/// on the central square ZO.
pub open spec fn spec_initial_board_piece(c: Coord) -> Option<Piece> {
    match (c.0, c.1) {
        (Row::O, Column::Z) => Some(Piece::Tam2),
        (Row::AI, Column::Z) => placed(Color::Huok2, Profession::Nuak1, Side::IASide),
        (Row::AI, Column::K) => placed(Color::Huok2, Profession::Kauk2, Side::IASide),
        (Row::AI, Column::N) => placed(Color::Huok2, Profession::Kauk2, Side::IASide),
        (Row::AI, Column::C) => placed(Color::Huok2, Profession::Kauk2, Side::IASide),
        (Row::AI, Column::P) => placed(Color::Huok2, Profession::Kauk2, Side::IASide),
        (Row::AI, Column::L) => placed(Color::Kok1, Profession::Kauk2, Side::IASide),
        (Row::AI, Column::T) => placed(Color::Kok1, Profession::Kauk2, Side::IASide),
        (Row::AI, Column::X) => placed(Color::Kok1, Profession::Kauk2, Side::IASide),
        (Row::AI, Column::M) => placed(Color::Kok1, Profession::Kauk2, Side::IASide),
        (Row::AU, Column::L) => placed(Color::Huok2, Profession::Gua2, Side::IASide),
        (Row::AU, Column::M) => placed(Color::Kok1, Profession::Gua2, Side::IASide),
        (Row::IA, Column::C) => placed(Color::Huok2, Profession::Kaun1, Side::IASide),
        (Row::IA, Column::N) => placed(Color::Kok1, Profession::Kaun1, Side::IASide),
        (Row::AU, Column::T) => placed(Color::Huok2, Profession::Dau2, Side::IASide),
        (Row::AU, Column::X) => placed(Color::Kok1, Profession::Dau2, Side::IASide),
        (Row::IA, Column::M) => placed(Color::Huok2, Profession::Maun1, Side::IASide),
        (Row::IA, Column::L) => placed(Color::Kok1, Profession::Maun1, Side::IASide),
        (Row::IA, Column::P) => placed(Color::Huok2, Profession::Kua2, Side::IASide),
        (Row::AU, Column::P) => placed(Color::Kok1, Profession::Tuk2, Side::IASide),
        (Row::IA, Column::X) => placed(Color::Huok2, Profession::Uai1, Side::IASide),
        (Row::IA, Column::T) => placed(Color::Kok1, Profession::Uai1, Side::IASide),
        (Row::IA, Column::Z) => placed(Color::Huok2, Profession::Io, Side::IASide),
        (Row::IA, Column::K) => placed(Color::Kok1, Profession::Kua2, Side::IASide),
        (Row::AU, Column::K) => placed(Color::Huok2, Profession::Tuk2, Side::IASide),
        (Row::I, Column::Z) => placed(Color::Kok1, Profession::Nuak1, Side::ASide),
        (Row::I, Column::K) => placed(Color::Huok2, Profession::Kauk2, Side::ASide),
        (Row::I, Column::N) => placed(Color::Huok2, Profession::Kauk2, Side::ASide),
        (Row::I, Column::C) => placed(Color::Huok2, Profession::Kauk2, Side::ASide),
        (Row::I, Column::P) => placed(Color::Huok2, Profession::Kauk2, Side::ASide),
        (Row::I, Column::L) => placed(Color::Kok1, Profession::Kauk2, Side::ASide),
        (Row::I, Column::T) => placed(Color::Kok1, Profession::Kauk2, Side::ASide),
        (Row::I, Column::X) => placed(Color::Kok1, Profession::Kauk2, Side::ASide),
        (Row::I, Column::M) => placed(Color::Kok1, Profession::Kauk2, Side::ASide),
        (Row::E, Column::M) => placed(Color::Huok2, Profession::Gua2, Side::ASide),
        (Row::E, Column::L) => placed(Color::Kok1, Profession::Gua2, Side::ASide),
        (Row::A, Column::N) => placed(Color::Huok2, Profession::Kaun1, Side::ASide),
        (Row::A, Column::C) => placed(Color::Kok1, Profession::Kaun1, Side::ASide),
        (Row::E, Column::X) => placed(Color::Huok2, Profession::Dau2, Side::ASide),
        (Row::E, Column::T) => placed(Color::Kok1, Profession::Dau2, Side::ASide),
        (Row::A, Column::L) => placed(Color::Huok2, Profession::Maun1, Side::ASide),
        (Row::A, Column::M) => placed(Color::Kok1, Profession::Maun1, Side::ASide),
        (Row::A, Column::K) => placed(Color::Huok2, Profession::Kua2, Side::ASide),
        (Row::E, Column::P) => placed(Color::Huok2, Profession::Tuk2, Side::ASide),
        (Row::A, Column::P) => placed(Color::Kok1, Profession::Kua2, Side::ASide),
        (Row::E, Column::K) => placed(Color::Kok1, Profession::Tuk2, Side::ASide),
        (Row::A, Column::T) => placed(Color::Huok2, Profession::Uai1, Side::ASide),
        (Row::A, Column::X) => placed(Color::Kok1, Profession::Uai1, Side::ASide),
        (Row::A, Column::Z) => placed(Color::Kok1, Profession::Io, Side::ASide),
        _ => None,
    }
}

fn placed_exec(color: Color, prof: Profession, side: Side) -> (r: Option<Piece>)
    ensures
        r == placed(color, prof, side),
{
    Some(Piece::NonTam2Piece { color, prof, side })
}

fn initial_board_piece(c: Coord) -> (r: Option<Piece>)
    ensures
        r == spec_initial_board_piece(c),
{
    match (c.0, c.1) {
        (Row::O, Column::Z) => Some(Piece::Tam2),
        (Row::AI, Column::Z) => placed_exec(Color::Huok2, Profession::Nuak1, Side::IASide),
        (Row::AI, Column::K) => placed_exec(Color::Huok2, Profession::Kauk2, Side::IASide),
        (Row::AI, Column::N) => placed_exec(Color::Huok2, Profession::Kauk2, Side::IASide),
        (Row::AI, Column::C) => placed_exec(Color::Huok2, Profession::Kauk2, Side::IASide),
        (Row::AI, Column::P) => placed_exec(Color::Huok2, Profession::Kauk2, Side::IASide),
        (Row::AI, Column::L) => placed_exec(Color::Kok1, Profession::Kauk2, Side::IASide),
        (Row::AI, Column::T) => placed_exec(Color::Kok1, Profession::Kauk2, Side::IASide),
        (Row::AI, Column::X) => placed_exec(Color::Kok1, Profession::Kauk2, Side::IASide),
        (Row::AI, Column::M) => placed_exec(Color::Kok1, Profession::Kauk2, Side::IASide),
        (Row::AU, Column::L) => placed_exec(Color::Huok2, Profession::Gua2, Side::IASide),
        (Row::AU, Column::M) => placed_exec(Color::Kok1, Profession::Gua2, Side::IASide),
        (Row::IA, Column::C) => placed_exec(Color::Huok2, Profession::Kaun1, Side::IASide),
        (Row::IA, Column::N) => placed_exec(Color::Kok1, Profession::Kaun1, Side::IASide),
        (Row::AU, Column::T) => placed_exec(Color::Huok2, Profession::Dau2, Side::IASide),
        (Row::AU, Column::X) => placed_exec(Color::Kok1, Profession::Dau2, Side::IASide),
        (Row::IA, Column::M) => placed_exec(Color::Huok2, Profession::Maun1, Side::IASide),
        (Row::IA, Column::L) => placed_exec(Color::Kok1, Profession::Maun1, Side::IASide),
        (Row::IA, Column::P) => placed_exec(Color::Huok2, Profession::Kua2, Side::IASide),
        (Row::AU, Column::P) => placed_exec(Color::Kok1, Profession::Tuk2, Side::IASide),
        (Row::IA, Column::X) => placed_exec(Color::Huok2, Profession::Uai1, Side::IASide),
        (Row::IA, Column::T) => placed_exec(Color::Kok1, Profession::Uai1, Side::IASide),
        (Row::IA, Column::Z) => placed_exec(Color::Huok2, Profession::Io, Side::IASide),
        (Row::IA, Column::K) => placed_exec(Color::Kok1, Profession::Kua2, Side::IASide),
        (Row::AU, Column::K) => placed_exec(Color::Huok2, Profession::Tuk2, Side::IASide),
        (Row::I, Column::Z) => placed_exec(Color::Kok1, Profession::Nuak1, Side::ASide),
        (Row::I, Column::K) => placed_exec(Color::Huok2, Profession::Kauk2, Side::ASide),
        (Row::I, Column::N) => placed_exec(Color::Huok2, Profession::Kauk2, Side::ASide),
        (Row::I, Column::C) => placed_exec(Color::Huok2, Profession::Kauk2, Side::ASide),
        (Row::I, Column::P) => placed_exec(Color::Huok2, Profession::Kauk2, Side::ASide),
        (Row::I, Column::L) => placed_exec(Color::Kok1, Profession::Kauk2, Side::ASide),
        (Row::I, Column::T) => placed_exec(Color::Kok1, Profession::Kauk2, Side::ASide),
        (Row::I, Column::X) => placed_exec(Color::Kok1, Profession::Kauk2, Side::ASide),
        (Row::I, Column::M) => placed_exec(Color::Kok1, Profession::Kauk2, Side::ASide),
        (Row::E, Column::M) => placed_exec(Color::Huok2, Profession::Gua2, Side::ASide),
        (Row::E, Column::L) => placed_exec(Color::Kok1, Profession::Gua2, Side::ASide),
        (Row::A, Column::N) => placed_exec(Color::Huok2, Profession::Kaun1, Side::ASide),
        (Row::A, Column::C) => placed_exec(Color::Kok1, Profession::Kaun1, Side::ASide),
        (Row::E, Column::X) => placed_exec(Color::Huok2, Profession::Dau2, Side::ASide),
        (Row::E, Column::T) => placed_exec(Color::Kok1, Profession::Dau2, Side::ASide),
        (Row::A, Column::L) => placed_exec(Color::Huok2, Profession::Maun1, Side::ASide),
        (Row::A, Column::M) => placed_exec(Color::Kok1, Profession::Maun1, Side::ASide),
        (Row::A, Column::K) => placed_exec(Color::Huok2, Profession::Kua2, Side::ASide),
        (Row::E, Column::P) => placed_exec(Color::Huok2, Profession::Tuk2, Side::ASide),
        (Row::A, Column::P) => placed_exec(Color::Kok1, Profession::Kua2, Side::ASide),
        (Row::E, Column::K) => placed_exec(Color::Kok1, Profession::Tuk2, Side::ASide),
        (Row::A, Column::T) => placed_exec(Color::Huok2, Profession::Uai1, Side::ASide),
        (Row::A, Column::X) => placed_exec(Color::Kok1, Profession::Uai1, Side::ASide),
        (Row::A, Column::Z) => placed_exec(Color::Kok1, Profession::Io, Side::ASide),
        _ => None,
    }
}

/// Returns the initial configuration as specified in the y1 huap1 (the
/// standardized rule): the black king starts at ZIA, the red king at
/// ZA.
#[must_use]
pub fn yhuap_initial_board() -> (r: Board)
    ensures
        r.wf(),
        forall|c: Coord| r.piece_at(c) == spec_initial_board_piece(c),
{
    let mut squares: Vec<Option<Piece>> = Vec::new();
    let mut row: usize = 0;
    while row < 9
        invariant
            row <= 9,
            squares@.len() == row * 9,
            forall|r2: int, c2: int|
                0 <= r2 < row && 0 <= c2 < 9 ==> squares@[r2 * 9 + c2] == spec_initial_board_piece(
                    Coord(row_of_index(r2), col_of_index(c2)),
                ),
        decreases 9 - row,
    {
        let mut col: usize = 0;
        while col < 9
            invariant
                row < 9,
                col <= 9,
                squares@.len() == row * 9 + col,
                forall|r2: int, c2: int|
                    0 <= r2 < row && 0 <= c2 < 9 ==> squares@[r2 * 9 + c2]
                        == spec_initial_board_piece(Coord(row_of_index(r2), col_of_index(c2))),
                forall|c2: int|
                    0 <= c2 < col ==> squares@[row * 9 + c2] == spec_initial_board_piece(
                        Coord(row_of_index(row as int), col_of_index(c2)),
                    ),
            decreases 9 - col,
        {
            squares.push(initial_board_piece(Coord(row_from_index(row), col_from_index(col))));
            col = col + 1;
        }
        row = row + 1;
    }
    let r = Board { squares };
    proof {
        assert forall|c: Coord| r.piece_at(c) == spec_initial_board_piece(c) by {
            let ri = row_index(c.0);
            let ci = col_index(c.1);
            assert(squares@[ri * 9 + ci] == spec_initial_board_piece(
                Coord(row_of_index(ri), col_of_index(ci)),
            ));
            assert(row_of_index(ri) == c.0);
            assert(col_of_index(ci) == c.1);
        }
    }
    r
}

/// Describes the field: a board plus each side's hop1zuo1 (the pieces
/// captured by that side, kept in the order they were captured).
#[derive(Clone, Debug, Eq, PartialEq)]
pub struct Field {
    /// board
    pub board: Board,
    /// hop1zuo1 for the ASide
    pub a_side_hop1zuo1: Vec<NonTam2Piece>,
    /// hop1zuo1 for the IASide
    pub ia_side_hop1zuo1: Vec<NonTam2Piece>,
}

/// How a successful removal from the ASide hop1zuo1 relates the new
/// field to the old one, and when the removal fails.
pub open spec fn spec_removed_a_side(old_f: Field, color: Color, prof: Profession, r: Option<
    Field,
>) -> bool {
    let x = NonTam2Piece { color, prof };
    match r {
        None => !old_f.a_side_hop1zuo1@.contains(x),
        Some(f) => {
            &&& crate::spec_remove_first(old_f.a_side_hop1zuo1@, x) == Some(f.a_side_hop1zuo1@)
            &&& f.ia_side_hop1zuo1@ == old_f.ia_side_hop1zuo1@
            &&& f.board@ == old_f.board@
            &&& f.wf()
        },
    }
}

/// How a successful removal from the IASide hop1zuo1 relates the new
/// field to the old one, and when the removal fails.
pub open spec fn spec_removed_ia_side(old_f: Field, color: Color, prof: Profession, r: Option<
    Field,
>) -> bool {
    let x = NonTam2Piece { color, prof };
    match r {
        None => !old_f.ia_side_hop1zuo1@.contains(x),
        Some(f) => {
            &&& crate::spec_remove_first(old_f.ia_side_hop1zuo1@, x) == Some(f.ia_side_hop1zuo1@)
            &&& f.a_side_hop1zuo1@ == old_f.a_side_hop1zuo1@
            &&& f.board@ == old_f.board@
            &&& f.wf()
        },
    }
}

impl Field {
    /// The field's board is well-formed.
    pub open spec fn wf(self) -> bool {
        self.board.wf()
    }

    /// Adds a captured piece to the given side's hop1zuo1, preserving
    /// the insertion order of the pieces already there.
    pub fn insert_nontam_piece_into_hop1zuo1(
        &mut self,
        color: Color,
        prof: Profession,
        side: Side,
    )
        ensures
            final(self).board == old(self).board,
            side == Side::ASide ==> final(self).a_side_hop1zuo1@ == old(self).a_side_hop1zuo1@
                .push(NonTam2Piece { color, prof }),
            side == Side::ASide ==> final(self).ia_side_hop1zuo1@ == old(self).ia_side_hop1zuo1@,
            side == Side::IASide ==> final(self).ia_side_hop1zuo1@ == old(self).ia_side_hop1zuo1@
                .push(NonTam2Piece { color, prof }),
            side == Side::IASide ==> final(self).a_side_hop1zuo1@ == old(self).a_side_hop1zuo1@,
    {
        match side {
            Side::ASide => self.a_side_hop1zuo1.push(NonTam2Piece { color, prof }),
            Side::IASide => self.ia_side_hop1zuo1.push(NonTam2Piece { color, prof }),
        }
    }

    /// Removes the first (by insertion order) captured piece with the
    /// given color and profession from the given side's hop1zuo1 and
    /// returns an updated, independent copy of the field; the input is
    /// left untouched. Returns `None`, and changes nothing, when no
    /// entry matches.
    #[must_use]
    pub fn find_and_remove_piece_from_hop1zuo1(
        &self,
        color: Color,
        prof: Profession,
        side: Side,
    ) -> (r: Option<Field>)
        requires
            self.wf(),
        ensures
            side == Side::ASide ==> spec_removed_a_side(*self, color, prof, r),
            side == Side::IASide ==> spec_removed_ia_side(*self, color, prof, r),
    {
        match side {
            Side::ASide => {
                let x = NonTam2Piece { color, prof };
                let n = self.a_side_hop1zuo1.len();
                let mut i: usize = 0;
                while i < n
                    invariant
                        self.wf(),
                        side == Side::ASide,
                        x == (NonTam2Piece { color, prof }),
                        i <= n,
                        n == self.a_side_hop1zuo1@.len(),
                        forall|j: int| 0 <= j < i ==> self.a_side_hop1zuo1@[j] != x,
                    decreases n - i,
                {
                    if self.a_side_hop1zuo1[i] == x {
                        let mut new_a = crate::copy_vec(&self.a_side_hop1zuo1);
                        new_a.remove(i);
                        proof {
                            let s = self.a_side_hop1zuo1@;
                            s.index_of_first_ensures(x);
                            assert(s.contains(x)) by {
                                assert(0 <= i < s.len() && s[i as int] == x);
                            }
                            let idx = s.index_of_first(x)->Some_0;
                            if idx < i as int {
                                assert(s[idx] != x);
                            }
                            if idx > i as int {
                                assert(s[i as int] != x);
                            }
                            assert(idx == i as int);
                        }
                        return Some(
                            Field {
                                board: Board { squares: crate::copy_vec(&self.board.squares) },
                                a_side_hop1zuo1: new_a,
                                ia_side_hop1zuo1: crate::copy_vec(&self.ia_side_hop1zuo1),
                            },
                        );
                    }
                    i = i + 1;
                }
                proof {
                    self.a_side_hop1zuo1@.index_of_first_ensures(x);
                }
                None
            },
            Side::IASide => {
                let x = NonTam2Piece { color, prof };
                let n = self.ia_side_hop1zuo1.len();
                let mut i: usize = 0;
                while i < n
                    invariant
                        self.wf(),
                        side == Side::IASide,
                        x == (NonTam2Piece { color, prof }),
                        i <= n,
                        n == self.ia_side_hop1zuo1@.len(),
                        forall|j: int| 0 <= j < i ==> self.ia_side_hop1zuo1@[j] != x,
                    decreases n - i,
                {
                    if self.ia_side_hop1zuo1[i] == x {
                        let mut new_ia = crate::copy_vec(&self.ia_side_hop1zuo1);
                        new_ia.remove(i);
                        proof {
                            let s = self.ia_side_hop1zuo1@;
                            s.index_of_first_ensures(x);
                            assert(s.contains(x)) by {
                                assert(0 <= i < s.len() && s[i as int] == x);
                            }
                            let idx = s.index_of_first(x)->Some_0;
                            if idx < i as int {
                                assert(s[idx] != x);
                            }
                            if idx > i as int {
                                assert(s[i as int] != x);
                            }
                            assert(idx == i as int);
                        }
                        return Some(
                            Field {
                                board: Board { squares: crate::copy_vec(&self.board.squares) },
                                a_side_hop1zuo1: crate::copy_vec(&self.a_side_hop1zuo1),
                                ia_side_hop1zuo1: new_ia,
                            },
                        );
                    }
                    i = i + 1;
                }
                proof {
                    self.ia_side_hop1zuo1@.index_of_first_ensures(x);
                }
                None
            },
        }
    }
}

} // verus!
