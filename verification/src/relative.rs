//! The relative coordinate frame: an egocentric view of the board in
//! which squares are addressed by integer indices and pieces either
//! point toward the viewer ("upward", the viewer's own) or away
//! ("downward", the opponent's).

use crate::{Color, Profession};
use vstd::prelude::*;
use vstd::seq_lib::*;

verus! {

/// Describes which player a piece belongs to, seen from the viewer's
/// side of the board.
#[derive(Copy, Clone, Debug, Eq, PartialEq, Hash, Structural)]
pub enum Side {
    /// The player whose pieces point upward in your perspective, i.e. you.
    Upward,
    /// The player whose pieces point downward in your perspective, i.e.
    /// the opponent.
    Downward,
}

impl Side {
    /// The other side.
    pub open spec fn spec_not(self) -> Side {
        match self {
            Side::Upward => Side::Downward,
            Side::Downward => Side::Upward,
        }
    }

    /// Flips the side, exchanging the viewer and the opponent.
    #[must_use]
    pub fn not(self) -> (r: Side)
        ensures
            r == self.spec_not(),
    {
        match self {
            Side::Upward => Side::Downward,
            Side::Downward => Side::Upward,
        }
    }
}

/// Flipping a side twice yields the original side.
pub proof fn lemma_side_not_involution(s: Side)
    ensures
        s.spec_not().spec_not() == s,
{
}

/// Describes a piece that is not a Tam2 and points downward (i.e. the
/// opponent's).
#[derive(Copy, Clone, Debug, Eq, PartialEq, Hash, Structural)]
pub struct NonTam2PieceDownward {
    /// color of the piece
    pub color: Color,
    /// profession of the piece
    pub prof: Profession,
}

/// Describes a piece that is not a Tam2 and points upward (i.e. yours).
#[derive(Copy, Clone, Debug, Eq, PartialEq, Hash, Structural)]
pub struct NonTam2PieceUpward {
    /// color of the piece
    pub color: Color,
    /// profession of the piece
    pub prof: Profession,
}

/// Describes a piece on the board.
#[derive(Copy, Clone, Debug, Eq, PartialEq, Hash, Structural)]
pub enum Piece {
    /// Tam2, a special piece belonging to both sides. Both players can
    /// move it; it has neither color nor profession nor side.
    Tam2,
    /// All the other usual pieces, each belonging to a single side.
    NonTam2Piece {
        /// color of the piece
        color: Color,
        /// profession of the piece
        prof: Profession,
        /// which side the piece belongs to
        side: Side,
    },
}

impl vstd::std_specs::convert::FromSpecImpl<NonTam2PieceUpward> for Piece {
    open spec fn obeys_from_spec() -> bool {
        true
    }

    open spec fn from_spec(t: NonTam2PieceUpward) -> Piece {
        Piece::NonTam2Piece { color: t.color, prof: t.prof, side: Side::Upward }
    }
}

impl From<NonTam2PieceUpward> for Piece {
    fn from(t: NonTam2PieceUpward) -> (r: Piece) {
        Piece::NonTam2Piece { color: t.color, prof: t.prof, side: Side::Upward }
    }
}

impl vstd::std_specs::convert::FromSpecImpl<NonTam2PieceDownward> for Piece {
    open spec fn obeys_from_spec() -> bool {
        true
    }

    open spec fn from_spec(t: NonTam2PieceDownward) -> Piece {
        Piece::NonTam2Piece { color: t.color, prof: t.prof, side: Side::Downward }
    }
}

impl From<NonTam2PieceDownward> for Piece {
    fn from(t: NonTam2PieceDownward) -> (r: Piece) {
        Piece::NonTam2Piece { color: t.color, prof: t.prof, side: Side::Downward }
    }
}

impl Piece {
    /// Whether the piece is the Tam2.
    pub open spec fn spec_is_tam2(self) -> bool {
        self is Tam2
    }

    /// Whether the piece is a non-Tam2 piece of the given color.
    pub open spec fn spec_has_color(self, clr: Color) -> bool {
        match self {
            Piece::Tam2 => false,
            Piece::NonTam2Piece { color, .. } => color == clr,
        }
    }

    /// Whether the piece is a non-Tam2 piece of the given profession.
    pub open spec fn spec_has_prof(self, prf: Profession) -> bool {
        match self {
            Piece::Tam2 => false,
            Piece::NonTam2Piece { prof, .. } => prof == prf,
        }
    }

    /// Whether the piece is a non-Tam2 piece of the given side.
    pub open spec fn spec_has_side(self, sid: Side) -> bool {
        match self {
            Piece::Tam2 => false,
            Piece::NonTam2Piece { side, .. } => side == sid,
        }
    }

    /// Checks whether the piece is a Tam2.
    #[must_use]
    pub fn is_tam2(self) -> (r: bool)
        ensures
            r == self.spec_is_tam2(),
    {
        match self {
            Piece::Tam2 => true,
            Piece::NonTam2Piece { .. } => false,
        }
    }

    /// Checks whether the piece has a specific color. Tam2 has neither
    /// color.
    #[must_use]
    pub fn has_color(self, clr: Color) -> (r: bool)
        ensures
            r == self.spec_has_color(clr),
    {
        match self {
            Piece::Tam2 => false,
            Piece::NonTam2Piece { color, .. } => color == clr,
        }
    }

    /// Checks whether the piece has a specific profession. Tam2 has no
    /// profession.
    #[must_use]
    pub fn has_prof(self, prf: Profession) -> (r: bool)
        ensures
            r == self.spec_has_prof(prf),
    {
        match self {
            Piece::Tam2 => false,
            Piece::NonTam2Piece { prof, .. } => prof == prf,
        }
    }

    /// Checks whether the piece belongs to a specific side. Tam2 belongs
    /// to neither side.
    #[must_use]
    pub fn has_side(self, sid: Side) -> (r: bool)
        ensures
            r == self.spec_has_side(sid),
    {
        match self {
            Piece::Tam2 => false,
            Piece::NonTam2Piece { side, .. } => side == sid,
        }
    }
}

/// What rotating a square's content does: the Tam2 and the empty square
/// are kept, and any other piece has its side flipped.
pub open spec fn spec_rotate_piece(p: Option<Piece>) -> Option<Piece> {
    match p {
        None => None,
        Some(Piece::Tam2) => Some(Piece::Tam2),
        Some(Piece::NonTam2Piece { color, prof, side }) => Some(
            Piece::NonTam2Piece { color, prof, side: side.spec_not() },
        ),
    }
}

/// Rotates the content of one square: a non-Tam2 piece has its side
/// flipped, while the Tam2 and the empty square are left unchanged.
#[must_use]
pub fn rotate_piece_or_null(p: Option<Piece>) -> (r: Option<Piece>)
    ensures
        r == spec_rotate_piece(p),
{
    match p {
        None => None,
        Some(Piece::Tam2) => Some(Piece::Tam2),
        Some(Piece::NonTam2Piece { color, prof, side }) => Some(
            Piece::NonTam2Piece { color, prof, side: side.not() },
        ),
    }
}

/// Rotating a square's content twice yields the original content.
pub proof fn lemma_rotate_piece_involution(p: Option<Piece>)
    ensures
        spec_rotate_piece(spec_rotate_piece(p)) == p,
{
}

/// Denotes the position of a square by a (row, column) pair of indices,
/// each expected to lie in `[0, 8]`. Index 0 names the row or column
/// nearest the downward side in the canonical orientation.
///
/// Out-of-range indices are a caller contract violation: every function
/// that consumes a coordinate states `is_valid` as a precondition
/// rather than returning a recoverable error.
#[derive(Copy, Clone, Debug, Eq, PartialEq, Hash, Structural)]
pub struct Coord {
    /// row index, 0 through 8
    pub row: usize,
    /// column index, 0 through 8
    pub col: usize,
}

impl Coord {
    /// Both indices lie on the 9x9 grid.
    pub open spec fn is_valid(self) -> bool {
        self.row < 9 && self.col < 9
    }
}

/// The coordinate obtained by a point reflection through the center of
/// the board.
pub open spec fn spec_rotate_coord(c: Coord) -> Coord {
    Coord { row: (8 - c.row) as usize, col: (8 - c.col) as usize }
}

/// Rotates the coordinate with the center of the board as the center of
/// rotation.
#[must_use]
pub fn rotate_coord(c: Coord) -> (r: Coord)
    requires
        c.is_valid(),
    ensures
        r == spec_rotate_coord(c),
        r.is_valid(),
{
    Coord { row: 8 - c.row, col: 8 - c.col }
}

/// Rotating a coordinate twice yields the original coordinate.
pub proof fn lemma_rotate_coord_involution(c: Coord)
    requires
        c.is_valid(),
    ensures
        spec_rotate_coord(spec_rotate_coord(c)) == c,
{
}

/// The nine restricted "water" squares: a five-square horizontal band
/// through the center row together with the four cells completing a
/// cross around the central square.
pub open spec fn spec_is_water(row: int, col: int) -> bool {
    ||| (row == 4 && col == 2)
    ||| (row == 4 && col == 3)
    ||| (row == 4 && col == 4)
    ||| (row == 4 && col == 5)
    ||| (row == 4 && col == 6)
    ||| (row == 2 && col == 4)
    ||| (row == 3 && col == 4)
    ||| (row == 5 && col == 4)
    ||| (row == 6 && col == 4)
}

/// Checks if the square is a tam2 nua2 (tam2's water), entry to which
/// is restricted.
#[must_use]
pub fn is_water(c: Coord) -> (r: bool)
    ensures
        r == spec_is_water(c.row as int, c.col as int),
{
    let row = c.row;
    let col = c.col;
    (row == 4 && col == 2) || (row == 4 && col == 3) || (row == 4 && col == 4) || (row == 4
        && col == 5) || (row == 4 && col == 6) || (row == 2 && col == 4) || (row == 3 && col == 4)
        || (row == 5 && col == 4) || (row == 6 && col == 4)
}

/// The set of grid squares, as (row, col) index pairs, on which the
/// water predicate holds.
pub open spec fn spec_water_squares() -> Set<(int, int)> {
    Set::new(|rc: (int, int)| 0 <= rc.0 < 9 && 0 <= rc.1 < 9 && spec_is_water(rc.0, rc.1))
}

/// The water predicate holds on exactly nine squares of the grid.
pub proof fn lemma_water_count()
    ensures
        spec_water_squares().finite(),
        spec_water_squares().len() == 9,
{
    let explicit = set![
        (4int, 2int),
        (4int, 3int),
        (4int, 4int),
        (4int, 5int),
        (4int, 6int),
        (2int, 4int),
        (3int, 4int),
        (5int, 4int),
        (6int, 4int),
    ];
    assert(spec_water_squares() =~= explicit);
    assert(explicit.len() == 9);
}

/// The water pattern is symmetric under the board's point reflection.
pub proof fn lemma_water_rotation_symmetric(row: int, col: int)
    ensures
        spec_is_water(8 - row, 8 - col) == spec_is_water(row, col),
{
}

/// The Chebyshev distance between two coordinates: the larger of the
/// absolute row difference and the absolute column difference.
pub open spec fn spec_distance(a: Coord, b: Coord) -> int {
    let dr = if a.row >= b.row {
        a.row - b.row
    } else {
        b.row - a.row
    };
    let dc = if a.col >= b.col {
        a.col - b.col
    } else {
        b.col - a.col
    };
    if dr >= dc {
        dr
    } else {
        dc
    }
}

/// Calculates the distance between two points: the larger of the row
/// difference and the column difference.
#[must_use]
pub fn distance(a: Coord, b: Coord) -> (r: i32)
    requires
        a.is_valid(),
        b.is_valid(),
    ensures
        r == spec_distance(a, b),
        0 <= r <= 8,
{
    let dr: usize = if a.row >= b.row {
        a.row - b.row
    } else {
        b.row - a.row
    };
    let dc: usize = if a.col >= b.col {
        a.col - b.col
    } else {
        b.col - a.col
    };
    let m: usize = if dr >= dc {
        dr
    } else {
        dc
    };
    m as i32
}

/// The distance does not depend on the order of its arguments.
pub proof fn lemma_distance_symmetric(a: Coord, b: Coord)
    ensures
        spec_distance(a, b) == spec_distance(b, a),
{
}

/// The distance from a coordinate to itself is zero.
pub proof fn lemma_distance_self(a: Coord)
    ensures
        spec_distance(a, a) == 0,
{
}

/// The distance is invariant under the board's point reflection, so it
/// does not depend on which side the board is viewed from.
pub proof fn lemma_distance_rotation_invariant(a: Coord, b: Coord)
    requires
        a.is_valid(),
        b.is_valid(),
    ensures
        spec_distance(spec_rotate_coord(a), spec_rotate_coord(b)) == spec_distance(a, b),
{
}

/// The character for a decimal digit, for digits 0 through 8.
pub open spec fn spec_digit_char(d: int) -> char {
    if d == 0 {
        '0'
    } else if d == 1 {
        '1'
    } else if d == 2 {
        '2'
    } else if d == 3 {
        '3'
    } else if d == 4 {
        '4'
    } else if d == 5 {
        '5'
    } else if d == 6 {
        '6'
    } else if d == 7 {
        '7'
    } else {
        '8'
    }
}

fn digit_str(d: usize) -> (r: &'static str)
    requires
        d < 9,
    ensures
        r@ =~= seq![spec_digit_char(d as int)],
{
    proof {
        reveal_strlit("0");
        reveal_strlit("1");
        reveal_strlit("2");
        reveal_strlit("3");
        reveal_strlit("4");
        reveal_strlit("5");
        reveal_strlit("6");
        reveal_strlit("7");
        reveal_strlit("8");
    }
    match d {
        0 => "0",
        1 => "1",
        2 => "2",
        3 => "3",
        4 => "4",
        5 => "5",
        6 => "6",
        7 => "7",
        _ => "8",
    }
}

/// The bracketed rendering of a coordinate, such as `[5,6]`.
pub open spec fn spec_serialize_coord(c: Coord) -> Seq<char> {
    "["@ + seq![spec_digit_char(c.row as int)] + ","@ + seq![spec_digit_char(c.col as int)] + "]"@
}

/// Serializes a [`Coord`] in JSON style, e.g. `[5,6]`.
#[must_use]
pub fn serialize_coord(coord: Coord) -> (r: String)
    requires
        coord.is_valid(),
    ensures
        r@ == spec_serialize_coord(coord),
{
    let mut s = String::from_str("[");
    s.append(digit_str(coord.row));
    s.append(",");
    s.append(digit_str(coord.col));
    s.append("]");
    s
}

/// The arrow that marks a side in the human-readable rendering.
pub open spec fn spec_side_str(side: Side) -> Seq<char> {
    match side {
        Side::Upward => "↑"@,
        Side::Downward => "↓"@,
    }
}

/// Serializes a [`Side`] as its arrow token.
#[must_use]
pub fn serialize_side(side: Side) -> (r: &'static str)
    ensures
        r@ == spec_side_str(side),
{
    match side {
        Side::Upward => "↑",
        Side::Downward => "↓",
    }
}

/// The human-readable rendering of a piece: the fixed token for the
/// Tam2, and color, profession and side tokens concatenated for every
/// other piece.
pub open spec fn spec_serialize_piece(p: Piece) -> Seq<char> {
    match p {
        Piece::Tam2 => "皇"@,
        Piece::NonTam2Piece { color, prof, side } => crate::spec_color_str(color)
            + crate::spec_prof_str(prof) + spec_side_str(side),
    }
}

/// Serializes a [`Piece`] as its display token.
#[must_use]
pub fn serialize_piece(p: Piece) -> (r: String)
    ensures
        r@ == spec_serialize_piece(p),
{
    match p {
        Piece::Tam2 => String::from_str("皇"),
        Piece::NonTam2Piece { color, prof, side } => {
            let mut s = String::from_str(crate::serialize_color(color));
            s.append(crate::serialize_prof(prof));
            s.append(serialize_side(side));
            s
        },
    }
}

/// Describes the board: the 9x9 squares, in terms of relative
/// coordinates. Cell `(row, col)` is stored at index `row * 9 + col`.
#[derive(Debug, Clone, PartialEq, Eq, Hash)]
pub struct Board {
    /// the 81 squares, row by row
    pub cells: Vec<Option<Piece>>,
}

impl View for Board {
    type V = Seq<Option<Piece>>;

    open spec fn view(&self) -> Seq<Option<Piece>> {
        self.cells@
    }
}

impl Board {
    /// The board holds exactly 81 cells.
    pub open spec fn wf(self) -> bool {
        self@.len() == 81
    }

    /// The content of the square at the given indices.
    pub open spec fn cell(self, row: int, col: int) -> Option<Piece>
        recommends
            0 <= row < 9,
            0 <= col < 9,
    {
        self@[row * 9 + col]
    }

    /// An empty board: 81 cells, all vacant.
    #[must_use]
    pub fn empty() -> (r: Board)
        ensures
            r.wf(),
            forall|row: int, col: int|
                0 <= row < 9 && 0 <= col < 9 ==> r.cell(row, col) is None,
    {
        let mut cells: Vec<Option<Piece>> = Vec::new();
        let mut i: usize = 0;
        while i < 81
            invariant
                i <= 81,
                cells@.len() == i,
                forall|k: int| 0 <= k < i ==> cells@[k] is None,
            decreases 81 - i,
        {
            cells.push(None);
            i = i + 1;
        }
        Board { cells }
    }

    /// Reads the square at the given coordinate.
    #[must_use]
    pub fn get(&self, c: Coord) -> (r: Option<Piece>)
        requires
            self.wf(),
            c.is_valid(),
        ensures
            r == self.cell(c.row as int, c.col as int),
    {
        self.cells[c.row * 9 + c.col]
    }

    /// Replaces the content of the square at the given coordinate.
    pub fn set(&mut self, c: Coord, p: Option<Piece>)
        requires
            old(self).wf(),
            c.is_valid(),
        ensures
            final(self).wf(),
            final(self)@ == old(self)@.update(c.row * 9 + c.col, p),
            final(self).cell(c.row as int, c.col as int) == p,
            forall|row: int, col: int|
                0 <= row < 9 && 0 <= col < 9 && !(row == c.row && col == c.col) ==> final(self).cell(row, col) == old(self).cell(row, col),
    {
        self.cells.set(c.row * 9 + c.col, p);
    }
}

/// A square occupied by the non-Tam2 piece with the given attributes.
pub open spec fn placed(color: Color, prof: Profession, side: Side) -> Option<Piece> {
    Some(Piece::NonTam2Piece { color, prof, side })
}

fn placed_exec(color: Color, prof: Profession, side: Side) -> (r: Option<Piece>)
    ensures
        r == placed(color, prof, side),
{
    Some(Piece::NonTam2Piece { color, prof, side })
}

/// The initial configuration as specified in the y1 huap1 (the
/// standardized rule), in the orientation where the black king points
/// upward: what the square at the given indices holds.
pub open spec fn spec_initial_black_up(row: int, col: int) -> Option<Piece> {
    if row == 0 {
        if col == 0 {
            placed(Color::Huok2, Profession::Kua2, Side::Downward)
        } else if col == 1 {
            placed(Color::Huok2, Profession::Maun1, Side::Downward)
        } else if col == 2 {
            placed(Color::Huok2, Profession::Kaun1, Side::Downward)
        } else if col == 3 {
            placed(Color::Huok2, Profession::Uai1, Side::Downward)
        } else if col == 4 {
            placed(Color::Kok1, Profession::Io, Side::Downward)
        } else if col == 5 {
            placed(Color::Kok1, Profession::Uai1, Side::Downward)
        } else if col == 6 {
            placed(Color::Kok1, Profession::Kaun1, Side::Downward)
        } else if col == 7 {
            placed(Color::Kok1, Profession::Maun1, Side::Downward)
        } else {
            placed(Color::Kok1, Profession::Kua2, Side::Downward)
        }
    } else if row == 1 {
        if col == 0 {
            placed(Color::Kok1, Profession::Tuk2, Side::Downward)
        } else if col == 1 {
            placed(Color::Kok1, Profession::Gua2, Side::Downward)
        } else if col == 3 {
            placed(Color::Kok1, Profession::Dau2, Side::Downward)
        } else if col == 5 {
            placed(Color::Huok2, Profession::Dau2, Side::Downward)
        } else if col == 7 {
            placed(Color::Huok2, Profession::Gua2, Side::Downward)
        } else if col == 8 {
            placed(Color::Huok2, Profession::Tuk2, Side::Downward)
        } else {
            None
        }
    } else if row == 2 {
        if col == 4 {
            placed(Color::Kok1, Profession::Nuak1, Side::Downward)
        } else if col == 1 || col == 3 || col == 5 || col == 7 {
            placed(Color::Kok1, Profession::Kauk2, Side::Downward)
        } else {
            placed(Color::Huok2, Profession::Kauk2, Side::Downward)
        }
    } else if row == 4 {
        if col == 4 {
            Some(Piece::Tam2)
        } else {
            None
        }
    } else if row == 6 {
        if col == 4 {
            placed(Color::Huok2, Profession::Nuak1, Side::Upward)
        } else if col == 1 || col == 3 || col == 5 || col == 7 {
            placed(Color::Kok1, Profession::Kauk2, Side::Upward)
        } else {
            placed(Color::Huok2, Profession::Kauk2, Side::Upward)
        }
    } else if row == 7 {
        if col == 0 {
            placed(Color::Huok2, Profession::Tuk2, Side::Upward)
        } else if col == 1 {
            placed(Color::Huok2, Profession::Gua2, Side::Upward)
        } else if col == 3 {
            placed(Color::Huok2, Profession::Dau2, Side::Upward)
        } else if col == 5 {
            placed(Color::Kok1, Profession::Dau2, Side::Upward)
        } else if col == 7 {
            placed(Color::Kok1, Profession::Gua2, Side::Upward)
        } else if col == 8 {
            placed(Color::Kok1, Profession::Tuk2, Side::Upward)
        } else {
            None
        }
    } else if row == 8 {
        if col == 0 {
            placed(Color::Kok1, Profession::Kua2, Side::Upward)
        } else if col == 1 {
            placed(Color::Kok1, Profession::Maun1, Side::Upward)
        } else if col == 2 {
            placed(Color::Kok1, Profession::Kaun1, Side::Upward)
        } else if col == 3 {
            placed(Color::Kok1, Profession::Uai1, Side::Upward)
        } else if col == 4 {
            placed(Color::Huok2, Profession::Io, Side::Upward)
        } else if col == 5 {
            placed(Color::Huok2, Profession::Uai1, Side::Upward)
        } else if col == 6 {
            placed(Color::Huok2, Profession::Kaun1, Side::Upward)
        } else if col == 7 {
            placed(Color::Huok2, Profession::Maun1, Side::Upward)
        } else {
            placed(Color::Huok2, Profession::Kua2, Side::Upward)
        }
    } else {
        None
    }
}

fn initial_piece_black_up(row: usize, col: usize) -> (r: Option<Piece>)
    requires
        row < 9,
        col < 9,
    ensures
        r == spec_initial_black_up(row as int, col as int),
{
    if row == 0 {
        if col == 0 {
            placed_exec(Color::Huok2, Profession::Kua2, Side::Downward)
        } else if col == 1 {
            placed_exec(Color::Huok2, Profession::Maun1, Side::Downward)
        } else if col == 2 {
            placed_exec(Color::Huok2, Profession::Kaun1, Side::Downward)
        } else if col == 3 {
            placed_exec(Color::Huok2, Profession::Uai1, Side::Downward)
        } else if col == 4 {
            placed_exec(Color::Kok1, Profession::Io, Side::Downward)
        } else if col == 5 {
            placed_exec(Color::Kok1, Profession::Uai1, Side::Downward)
        } else if col == 6 {
            placed_exec(Color::Kok1, Profession::Kaun1, Side::Downward)
        } else if col == 7 {
            placed_exec(Color::Kok1, Profession::Maun1, Side::Downward)
        } else {
            placed_exec(Color::Kok1, Profession::Kua2, Side::Downward)
        }
    } else if row == 1 {
        if col == 0 {
            placed_exec(Color::Kok1, Profession::Tuk2, Side::Downward)
        } else if col == 1 {
            placed_exec(Color::Kok1, Profession::Gua2, Side::Downward)
        } else if col == 3 {
            placed_exec(Color::Kok1, Profession::Dau2, Side::Downward)
        } else if col == 5 {
            placed_exec(Color::Huok2, Profession::Dau2, Side::Downward)
        } else if col == 7 {
            placed_exec(Color::Huok2, Profession::Gua2, Side::Downward)
        } else if col == 8 {
            placed_exec(Color::Huok2, Profession::Tuk2, Side::Downward)
        } else {
            None
        }
    } else if row == 2 {
        if col == 4 {
            placed_exec(Color::Kok1, Profession::Nuak1, Side::Downward)
        } else if col == 1 || col == 3 || col == 5 || col == 7 {
            placed_exec(Color::Kok1, Profession::Kauk2, Side::Downward)
        } else {
            placed_exec(Color::Huok2, Profession::Kauk2, Side::Downward)
        }
    } else if row == 4 {
        if col == 4 {
            Some(Piece::Tam2)
        } else {
            None
        }
    } else if row == 6 {
        if col == 4 {
            placed_exec(Color::Huok2, Profession::Nuak1, Side::Upward)
        } else if col == 1 || col == 3 || col == 5 || col == 7 {
            placed_exec(Color::Kok1, Profession::Kauk2, Side::Upward)
        } else {
            placed_exec(Color::Huok2, Profession::Kauk2, Side::Upward)
        }
    } else if row == 7 {
        if col == 0 {
            placed_exec(Color::Huok2, Profession::Tuk2, Side::Upward)
        } else if col == 1 {
            placed_exec(Color::Huok2, Profession::Gua2, Side::Upward)
        } else if col == 3 {
            placed_exec(Color::Huok2, Profession::Dau2, Side::Upward)
        } else if col == 5 {
            placed_exec(Color::Kok1, Profession::Dau2, Side::Upward)
        } else if col == 7 {
            placed_exec(Color::Kok1, Profession::Gua2, Side::Upward)
        } else if col == 8 {
            placed_exec(Color::Kok1, Profession::Tuk2, Side::Upward)
        } else {
            None
        }
    } else if row == 8 {
        if col == 0 {
            placed_exec(Color::Kok1, Profession::Kua2, Side::Upward)
        } else if col == 1 {
            placed_exec(Color::Kok1, Profession::Maun1, Side::Upward)
        } else if col == 2 {
            placed_exec(Color::Kok1, Profession::Kaun1, Side::Upward)
        } else if col == 3 {
            placed_exec(Color::Kok1, Profession::Uai1, Side::Upward)
        } else if col == 4 {
            placed_exec(Color::Huok2, Profession::Io, Side::Upward)
        } else if col == 5 {
            placed_exec(Color::Huok2, Profession::Uai1, Side::Upward)
        } else if col == 6 {
            placed_exec(Color::Huok2, Profession::Kaun1, Side::Upward)
        } else if col == 7 {
            placed_exec(Color::Huok2, Profession::Maun1, Side::Upward)
        } else {
            placed_exec(Color::Huok2, Profession::Kua2, Side::Upward)
        }
    } else {
        None
    }
}

/// Returns the initial configuration as specified in the y1 huap1 (the
/// standardized rule), in the orientation where the black king points
/// upward (i.e. is yours).
#[must_use]
pub fn yhuap_initial_board_where_black_king_points_upward() -> (r: Board)
    ensures
        r.wf(),
        forall|row: int, col: int|
            0 <= row < 9 && 0 <= col < 9 ==> r.cell(row, col) == spec_initial_black_up(row, col),
{
    let mut cells: Vec<Option<Piece>> = Vec::new();
    let mut row: usize = 0;
    while row < 9
        invariant
            row <= 9,
            cells@.len() == row * 9,
            forall|r2: int, c2: int|
                0 <= r2 < row && 0 <= c2 < 9 ==> cells@[r2 * 9 + c2] == spec_initial_black_up(
                    r2,
                    c2,
                ),
        decreases 9 - row,
    {
        let mut col: usize = 0;
        while col < 9
            invariant
                row < 9,
                col <= 9,
                cells@.len() == row * 9 + col,
                forall|r2: int, c2: int|
                    0 <= r2 < row && 0 <= c2 < 9 ==> cells@[r2 * 9 + c2] == spec_initial_black_up(
                        r2,
                        c2,
                    ),
                forall|c2: int|
                    0 <= c2 < col ==> cells@[row * 9 + c2] == spec_initial_black_up(
                        row as int,
                        c2,
                    ),
            decreases 9 - col,
        {
            cells.push(initial_piece_black_up(row, col));
            col = col + 1;
        }
        row = row + 1;
    }
    Board { cells }
}

/// What rotating the whole board does to the stored sequence of cells:
/// each cell receives the rotated content of the diametrically opposite
/// square.
pub open spec fn spec_rotate_board(s: Seq<Option<Piece>>) -> Seq<Option<Piece>> {
    Seq::new(81, |k: int| spec_rotate_piece(s[80 - k]))
}

/// Rotates a board by 180 degrees, exchanging the viewer's and the
/// opponent's camps: every square receives the content of the opposite
/// square, with each non-Tam2 piece's side flipped.
#[must_use]
pub fn rotate_board(b: Board) -> (r: Board)
    requires
        b.wf(),
    ensures
        r.wf(),
        r@ == spec_rotate_board(b@),
        forall|row: int, col: int|
            0 <= row < 9 && 0 <= col < 9 ==> r.cell(row, col) == spec_rotate_piece(
                b.cell(8 - row, 8 - col),
            ),
{
    let mut cells: Vec<Option<Piece>> = Vec::new();
    let mut row: usize = 0;
    while row < 9
        invariant
            b.wf(),
            row <= 9,
            cells@.len() == row * 9,
            forall|k: int| 0 <= k < row * 9 ==> cells@[k] == spec_rotate_piece(b@[80 - k]),
        decreases 9 - row,
    {
        let mut col: usize = 0;
        while col < 9
            invariant
                b.wf(),
                row < 9,
                col <= 9,
                cells@.len() == row * 9 + col,
                forall|k: int|
                    0 <= k < row * 9 + col ==> cells@[k] == spec_rotate_piece(b@[80 - k]),
            decreases 9 - col,
        {
            let p = b.get(Coord { row: 8 - row, col: 8 - col });
            cells.push(rotate_piece_or_null(p));
            col = col + 1;
        }
        row = row + 1;
    }
    let r = Board { cells };
    proof {
        assert(r@ =~= spec_rotate_board(b@));
    }
    r
}

/// Rotating a board twice yields the original board, cell for cell.
pub proof fn lemma_rotate_board_involution(s: Seq<Option<Piece>>)
    requires
        s.len() == 81,
    ensures
        spec_rotate_board(spec_rotate_board(s)) =~= s,
{
    assert forall|k: int| 0 <= k < 81 implies spec_rotate_board(spec_rotate_board(s))[k] == s[k] by {
        lemma_rotate_piece_involution(s[k]);
    }
}

/// The initial configuration in the orientation where the red king
/// points upward: the 180-degree rotation of the black-king-upward
/// layout.
pub open spec fn spec_initial_red_up(row: int, col: int) -> Option<Piece> {
    spec_rotate_piece(spec_initial_black_up(8 - row, 8 - col))
}

/// Returns the initial configuration as specified in the y1 huap1 (the
/// standardized rule), in the orientation where the red king points
/// upward (i.e. is yours).
#[must_use]
pub fn yhuap_initial_board_where_red_king_points_upward() -> (r: Board)
    ensures
        r.wf(),
        forall|row: int, col: int|
            0 <= row < 9 && 0 <= col < 9 ==> r.cell(row, col) == spec_initial_red_up(row, col),
{
    let b = yhuap_initial_board_where_black_king_points_upward();
    rotate_board(b)
}

/// Describes the field: a board plus each side's hop1zuo1 (the pieces
/// captured by that side, kept in the order they were captured).
#[derive(Debug, Clone, PartialEq, Eq, Hash)]
pub struct Field {
    /// board
    pub current_board: Board,
    /// hop1zuo1 for the Upward side (i.e. you)
    pub hop1zuo1of_upward: Vec<NonTam2PieceUpward>,
    /// hop1zuo1 for the Downward side (i.e. the opponent)
    pub hop1zuo1of_downward: Vec<NonTam2PieceDownward>,
}

/// How a successful removal from the upward hop1zuo1 relates the new
/// field to the old one, and when the removal fails.
pub open spec fn spec_removed_up(old_f: Field, color: Color, prof: Profession, r: Option<
    Field,
>) -> bool {
    let x = NonTam2PieceUpward { color, prof };
    match r {
        None => !old_f.hop1zuo1of_upward@.contains(x),
        Some(f) => {
            &&& crate::spec_remove_first(old_f.hop1zuo1of_upward@, x) == Some(
                f.hop1zuo1of_upward@,
            )
            &&& f.hop1zuo1of_downward@ == old_f.hop1zuo1of_downward@
            &&& f.current_board@ == old_f.current_board@
            &&& f.wf()
        },
    }
}

/// How a successful removal from the downward hop1zuo1 relates the new
/// field to the old one, and when the removal fails.
pub open spec fn spec_removed_down(old_f: Field, color: Color, prof: Profession, r: Option<
    Field,
>) -> bool {
    let x = NonTam2PieceDownward { color, prof };
    match r {
        None => !old_f.hop1zuo1of_downward@.contains(x),
        Some(f) => {
            &&& crate::spec_remove_first(old_f.hop1zuo1of_downward@, x) == Some(
                f.hop1zuo1of_downward@,
            )
            &&& f.hop1zuo1of_upward@ == old_f.hop1zuo1of_upward@
            &&& f.current_board@ == old_f.current_board@
            &&& f.wf()
        },
    }
}

impl Field {
    /// The field's board is well-formed.
    pub open spec fn wf(self) -> bool {
        self.current_board.wf()
    }

    /// Adds a captured piece to the given side's hop1zuo1, preserving
    /// the insertion order of the pieces already there.
    pub fn insert_nontam_piece_into_hop1zuo1(
        &mut self,
        color: Color,
        prof: Profession,
        side: Side,
    )
        ensures
            final(self).current_board == old(self).current_board,
            side == Side::Upward ==> final(self).hop1zuo1of_upward@ == old(self).hop1zuo1of_upward@
                .push(NonTam2PieceUpward { color, prof }),
            side == Side::Upward ==> final(self).hop1zuo1of_downward@ == old(self).hop1zuo1of_downward@,
            side == Side::Downward ==> final(self).hop1zuo1of_downward@ == old(self).hop1zuo1of_downward@.push(NonTam2PieceDownward { color, prof }),
            side == Side::Downward ==> final(self).hop1zuo1of_upward@ == old(self).hop1zuo1of_upward@,
    {
        match side {
            Side::Upward => self.hop1zuo1of_upward.push(NonTam2PieceUpward { color, prof }),
            Side::Downward => self.hop1zuo1of_downward.push(NonTam2PieceDownward { color, prof }),
        }
    }

    /// Removes the first (by insertion order) captured piece with the
    /// given color and profession from the given side's hop1zuo1 and
    /// returns an updated, independent copy of the field; the input is
    /// left untouched. Returns `None`, and changes nothing, when no
    /// entry matches.
    #[must_use]
    pub fn find_and_remove_piece_from_hop1zuo1(
        &self,
        color: Color,
        prof: Profession,
        side: Side,
    ) -> (r: Option<Field>)
        requires
            self.wf(),
        ensures
            side == Side::Upward ==> spec_removed_up(*self, color, prof, r),
            side == Side::Downward ==> spec_removed_down(*self, color, prof, r),
    {
        match side {
            Side::Upward => {
                let x = NonTam2PieceUpward { color, prof };
                let n = self.hop1zuo1of_upward.len();
                let mut i: usize = 0;
                while i < n
                    invariant
                        self.wf(),
                        side == Side::Upward,
                        x == (NonTam2PieceUpward { color, prof }),
                        i <= n,
                        n == self.hop1zuo1of_upward@.len(),
                        forall|j: int| 0 <= j < i ==> self.hop1zuo1of_upward@[j] != x,
                    decreases n - i,
                {
                    if self.hop1zuo1of_upward[i] == x {
                        let mut new_up = crate::copy_vec(&self.hop1zuo1of_upward);
                        new_up.remove(i);
                        proof {
                            let s = self.hop1zuo1of_upward@;
                            s.index_of_first_ensures(x);
                            assert(s.contains(x)) by {
                                assert(0 <= i < s.len() && s[i as int] == x);
                            }
                            let idx = s.index_of_first(x)->Some_0;
                            if idx < i as int {
                                assert(s[idx] != x);
                            }
                            if idx > i as int {
                                assert(s[i as int] != x);
                            }
                            assert(idx == i as int);
                        }
                        return Some(
                            Field {
                                current_board: Board {
                                    cells: crate::copy_vec(&self.current_board.cells),
                                },
                                hop1zuo1of_upward: new_up,
                                hop1zuo1of_downward: crate::copy_vec(&self.hop1zuo1of_downward),
                            },
                        );
                    }
                    i = i + 1;
                }
                proof {
                    self.hop1zuo1of_upward@.index_of_first_ensures(x);
                }
                None
            },
            Side::Downward => {
                let x = NonTam2PieceDownward { color, prof };
                let n = self.hop1zuo1of_downward.len();
                let mut i: usize = 0;
                while i < n
                    invariant
                        self.wf(),
                        side == Side::Downward,
                        x == (NonTam2PieceDownward { color, prof }),
                        i <= n,
                        n == self.hop1zuo1of_downward@.len(),
                        forall|j: int| 0 <= j < i ==> self.hop1zuo1of_downward@[j] != x,
                    decreases n - i,
                {
                    if self.hop1zuo1of_downward[i] == x {
                        let mut new_down = crate::copy_vec(&self.hop1zuo1of_downward);
                        new_down.remove(i);
                        proof {
                            let s = self.hop1zuo1of_downward@;
                            s.index_of_first_ensures(x);
                            assert(s.contains(x)) by {
                                assert(0 <= i < s.len() && s[i as int] == x);
                            }
                            let idx = s.index_of_first(x)->Some_0;
                            if idx < i as int {
                                assert(s[idx] != x);
                            }
                            if idx > i as int {
                                assert(s[i as int] != x);
                            }
                            assert(idx == i as int);
                        }
                        return Some(
                            Field {
                                current_board: Board {
                                    cells: crate::copy_vec(&self.current_board.cells),
                                },
                                hop1zuo1of_upward: crate::copy_vec(&self.hop1zuo1of_upward),
                                hop1zuo1of_downward: new_down,
                            },
                        );
                    }
                    i = i + 1;
                }
                proof {
                    self.hop1zuo1of_downward@.index_of_first_ensures(x);
                }
                None
            },
        }
    }
}

} // verus!
