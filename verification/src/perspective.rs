//! The perspective engine: given a choice of which absolute player is
//! the egocentric "self", converts sides, pieces, coordinates, boards
//! and whole fields between the absolute and the relative frame.

use crate::{absolute, relative};
use vstd::prelude::*;

verus! {

/// Selects which absolute side corresponds to "Upward" in the relative
/// frame, and therefore whether the coordinate mapping is the identity
/// or the 180-degree relabeling.
#[derive(Copy, Clone, Debug, Eq, PartialEq, Hash, Structural)]
pub enum Perspective {
    /// The IA side sits at the bottom of the board and its pieces point
    /// upward: the IA side is the egocentric "self".
    IaIsDownAndPointsUpward,
    /// The IA side sits at the top of the board and its pieces point
    /// downward: the A side is the egocentric "self".
    IaIsUpAndPointsDownward,
}

impl Perspective {
    /// Whether the IA side sits at the bottom, so that relative index 0
    /// maps directly to the first row and column labels.
    pub open spec fn spec_ia_is_down(self) -> bool {
        self == Perspective::IaIsDownAndPointsUpward
    }

    /// Whether the IA side sits at the bottom of the board.
    #[must_use]
    pub fn ia_is_down(self) -> (r: bool)
        ensures
            r == self.spec_ia_is_down(),
    {
        match self {
            Perspective::IaIsDownAndPointsUpward => true,
            Perspective::IaIsUpAndPointsDownward => false,
        }
    }
}

/// Which absolute side a relative side denotes under a perspective.
pub open spec fn spec_to_absolute_side(side: relative::Side, p: Perspective) -> absolute::Side {
    match (side, p) {
        (relative::Side::Upward, Perspective::IaIsDownAndPointsUpward) => absolute::Side::IASide,
        (relative::Side::Downward, Perspective::IaIsUpAndPointsDownward) => absolute::Side::IASide,
        (relative::Side::Downward, Perspective::IaIsDownAndPointsUpward) => absolute::Side::ASide,
        (relative::Side::Upward, Perspective::IaIsUpAndPointsDownward) => absolute::Side::ASide,
    }
}

/// Which relative side an absolute side denotes under a perspective.
pub open spec fn spec_to_relative_side(side: absolute::Side, p: Perspective) -> relative::Side {
    match (side, p) {
        (absolute::Side::IASide, Perspective::IaIsDownAndPointsUpward) => relative::Side::Upward,
        (absolute::Side::ASide, Perspective::IaIsUpAndPointsDownward) => relative::Side::Upward,
        (absolute::Side::IASide, Perspective::IaIsUpAndPointsDownward) => relative::Side::Downward,
        (absolute::Side::ASide, Perspective::IaIsDownAndPointsUpward) => relative::Side::Downward,
    }
}

/// Converts a `relative::Side` into an `absolute::Side`.
#[must_use]
pub fn to_absolute_side(side: relative::Side, p: Perspective) -> (r: absolute::Side)
    ensures
        r == spec_to_absolute_side(side, p),
{
    match (side, p) {
        (relative::Side::Upward, Perspective::IaIsDownAndPointsUpward) => absolute::Side::IASide,
        (relative::Side::Downward, Perspective::IaIsUpAndPointsDownward) => absolute::Side::IASide,
        (relative::Side::Downward, Perspective::IaIsDownAndPointsUpward) => absolute::Side::ASide,
        (relative::Side::Upward, Perspective::IaIsUpAndPointsDownward) => absolute::Side::ASide,
    }
}

/// Converts an `absolute::Side` into a `relative::Side`.
#[must_use]
pub fn to_relative_side(side: absolute::Side, p: Perspective) -> (r: relative::Side)
    ensures
        r == spec_to_relative_side(side, p),
{
    match (side, p) {
        (absolute::Side::IASide, Perspective::IaIsDownAndPointsUpward) => relative::Side::Upward,
        (absolute::Side::ASide, Perspective::IaIsUpAndPointsDownward) => relative::Side::Upward,
        (absolute::Side::IASide, Perspective::IaIsUpAndPointsDownward) => relative::Side::Downward,
        (absolute::Side::ASide, Perspective::IaIsDownAndPointsUpward) => relative::Side::Downward,
    }
}

/// For a fixed perspective, the two side conversions are mutual
/// inverses: a relative side survives the round trip.
pub proof fn lemma_side_roundtrip_relative(side: relative::Side, p: Perspective)
    ensures
        spec_to_relative_side(spec_to_absolute_side(side, p), p) == side,
{
}

/// For a fixed perspective, the two side conversions are mutual
/// inverses: an absolute side survives the round trip.
pub proof fn lemma_side_roundtrip_absolute(side: absolute::Side, p: Perspective)
    ensures
        spec_to_absolute_side(spec_to_relative_side(side, p), p) == side,
{
}

/// What piece conversion does: the Tam2 is kept, and every other piece
/// keeps its color and profession while its side tag is mapped.
pub open spec fn spec_to_relative_piece(piece: absolute::Piece, p: Perspective) -> relative::Piece {
    match piece {
        absolute::Piece::Tam2 => relative::Piece::Tam2,
        absolute::Piece::NonTam2Piece { color, prof, side } => relative::Piece::NonTam2Piece {
            color,
            prof,
            side: spec_to_relative_side(side, p),
        },
    }
}

/// What piece conversion does in the other direction.
pub open spec fn spec_to_absolute_piece(piece: relative::Piece, p: Perspective) -> absolute::Piece {
    match piece {
        relative::Piece::Tam2 => absolute::Piece::Tam2,
        relative::Piece::NonTam2Piece { color, prof, side } => absolute::Piece::NonTam2Piece {
            color,
            prof,
            side: spec_to_absolute_side(side, p),
        },
    }
}

/// Converts an `absolute::Piece` into a `relative::Piece`.
#[must_use]
pub fn to_relative_piece(piece: absolute::Piece, p: Perspective) -> (r: relative::Piece)
    ensures
        r == spec_to_relative_piece(piece, p),
{
    match piece {
        absolute::Piece::Tam2 => relative::Piece::Tam2,
        absolute::Piece::NonTam2Piece { color, prof, side } => relative::Piece::NonTam2Piece {
            color,
            prof,
            side: to_relative_side(side, p),
        },
    }
}

/// Converts a `relative::Piece` into an `absolute::Piece`.
#[must_use]
pub fn to_absolute_piece(piece: relative::Piece, p: Perspective) -> (r: absolute::Piece)
    ensures
        r == spec_to_absolute_piece(piece, p),
{
    match piece {
        relative::Piece::Tam2 => absolute::Piece::Tam2,
        relative::Piece::NonTam2Piece { color, prof, side } => absolute::Piece::NonTam2Piece {
            color,
            prof,
            side: to_absolute_side(side, p),
        },
    }
}

/// For a fixed perspective, a relative piece survives the round trip
/// through the absolute frame.
pub proof fn lemma_piece_roundtrip_relative(piece: relative::Piece, p: Perspective)
    ensures
        spec_to_relative_piece(spec_to_absolute_piece(piece, p), p) == piece,
{
}

/// For a fixed perspective, an absolute piece survives the round trip
/// through the relative frame.
pub proof fn lemma_piece_roundtrip_absolute(piece: absolute::Piece, p: Perspective)
    ensures
        spec_to_absolute_piece(spec_to_relative_piece(piece, p), p) == piece,
{
}

/// Which absolute coordinate a relative coordinate denotes: under the
/// perspective where the IA side is down, index i maps directly to the
/// i-th row and column labels; otherwise to the (8 - i)-th.
pub open spec fn spec_to_absolute_coord(coord: relative::Coord, p: Perspective) -> absolute::Coord {
    if p.spec_ia_is_down() {
        absolute::Coord(
            absolute::row_of_index(coord.row as int),
            absolute::col_of_index(coord.col as int),
        )
    } else {
        absolute::Coord(
            absolute::row_of_index(8 - coord.row),
            absolute::col_of_index(8 - coord.col),
        )
    }
}

/// Which relative coordinate an absolute coordinate denotes.
pub open spec fn spec_to_relative_coord(coord: absolute::Coord, p: Perspective) -> relative::Coord {
    if p.spec_ia_is_down() {
        relative::Coord {
            row: absolute::row_index(coord.0) as usize,
            col: absolute::col_index(coord.1) as usize,
        }
    } else {
        relative::Coord {
            row: (8 - absolute::row_index(coord.0)) as usize,
            col: (8 - absolute::col_index(coord.1)) as usize,
        }
    }
}

/// Converts a `relative::Coord` into an `absolute::Coord`.
#[must_use]
pub fn to_absolute_coord(coord: relative::Coord, p: Perspective) -> (r: absolute::Coord)
    requires
        coord.is_valid(),
    ensures
        r == spec_to_absolute_coord(coord, p),
{
    if p.ia_is_down() {
        absolute::Coord(
            absolute::row_from_index(coord.row),
            absolute::col_from_index(coord.col),
        )
    } else {
        absolute::Coord(
            absolute::row_from_index(8 - coord.row),
            absolute::col_from_index(8 - coord.col),
        )
    }
}

/// Converts an `absolute::Coord` into a `relative::Coord`.
#[must_use]
pub fn to_relative_coord(coord: absolute::Coord, p: Perspective) -> (r: relative::Coord)
    ensures
        r == spec_to_relative_coord(coord, p),
        r.is_valid(),
{
    let row = absolute::row_number(coord.0);
    let col = absolute::col_number(coord.1);
    if p.ia_is_down() {
        relative::Coord { row, col }
    } else {
        relative::Coord { row: 8 - row, col: 8 - col }
    }
}

/// For a fixed perspective, a relative coordinate survives the round
/// trip through the absolute frame.
pub proof fn lemma_coord_roundtrip_relative(c: relative::Coord, p: Perspective)
    requires
        c.is_valid(),
    ensures
        spec_to_relative_coord(spec_to_absolute_coord(c, p), p) == c,
{
}

/// For a fixed perspective, an absolute coordinate survives the round
/// trip through the relative frame.
pub proof fn lemma_coord_roundtrip_absolute(c: absolute::Coord, p: Perspective)
    ensures
        spec_to_absolute_coord(spec_to_relative_coord(c, p), p) == c,
{
}

/// The flat position of the absolute image of a relative coordinate:
/// the identity under the IA-is-down perspective, the point reflection
/// otherwise.
proof fn lemma_abs_coord_flat_index(c: relative::Coord, p: Perspective)
    requires
        c.is_valid(),
    ensures
        absolute::coord_index(spec_to_absolute_coord(c, p)) == if p.spec_ia_is_down() {
            c.row * 9 + c.col
        } else {
            80 - (c.row * 9 + c.col)
        },
{
}

/// The water predicates of the two frames agree: a square is water by
/// its absolute label exactly when its relative image is water by its
/// indices, under any perspective.
pub proof fn lemma_water_agreement(c: absolute::Coord, p: Perspective)
    ensures
        absolute::spec_is_water(c) == relative::spec_is_water(
            spec_to_relative_coord(c, p).row as int,
            spec_to_relative_coord(c, p).col as int,
        ),
{
    absolute::lemma_is_water_indices(c);
    relative::lemma_water_rotation_symmetric(
        absolute::row_index(c.0),
        absolute::col_index(c.1),
    );
}

/// The distance between two absolute coordinates equals the distance
/// between their relative images, whichever perspective is chosen.
pub proof fn lemma_distance_perspective_independent(
    a: absolute::Coord,
    b: absolute::Coord,
    p: Perspective,
)
    ensures
        relative::spec_distance(spec_to_relative_coord(a, p), spec_to_relative_coord(b, p))
            == absolute::spec_distance(a, b),
{
}

/// What converting the content of one square to the relative frame
/// does.
pub open spec fn spec_opt_to_relative_piece(p: Option<absolute::Piece>, per: Perspective) -> Option<
    relative::Piece,
> {
    match p {
        None => None,
        Some(piece) => Some(spec_to_relative_piece(piece, per)),
    }
}

/// What converting the content of one square to the absolute frame
/// does.
pub open spec fn spec_opt_to_absolute_piece(p: Option<relative::Piece>, per: Perspective) -> Option<
    absolute::Piece,
> {
    match p {
        None => None,
        Some(piece) => Some(spec_to_absolute_piece(piece, per)),
    }
}

/// What converting a whole board to the absolute frame does to the
/// stored sequence of squares: absolute flat position k receives the
/// converted content of the corresponding relative cell.
pub open spec fn spec_to_absolute_board(s: Seq<Option<relative::Piece>>, p: Perspective) -> Seq<
    Option<absolute::Piece>,
> {
    Seq::new(
        81,
        |k: int|
            spec_opt_to_absolute_piece(
                s[if p.spec_ia_is_down() {
                    k
                } else {
                    80 - k
                }],
                p,
            ),
    )
}

/// What converting a whole board to the relative frame does to the
/// stored sequence of cells.
pub open spec fn spec_to_relative_board(s: Seq<Option<absolute::Piece>>, p: Perspective) -> Seq<
    Option<relative::Piece>,
> {
    Seq::new(
        81,
        |k: int|
            spec_opt_to_relative_piece(
                s[if p.spec_ia_is_down() {
                    k
                } else {
                    80 - k
                }],
                p,
            ),
    )
}

/// Converts a relative board into an absolute board: every cell is
/// mapped through the coordinate and piece conversions; empty cells
/// stay empty.
#[must_use]
pub fn to_absolute_board(board: &relative::Board, p: Perspective) -> (r: absolute::Board)
    requires
        board.wf(),
    ensures
        r.wf(),
        r@ == spec_to_absolute_board(board@, p),
        forall|c: relative::Coord|
            c.is_valid() ==> r.piece_at(spec_to_absolute_coord(c, p))
                == spec_opt_to_absolute_piece(board.cell(c.row as int, c.col as int), p),
{
    let mut squares: Vec<Option<absolute::Piece>> = Vec::new();
    let mut row: usize = 0;
    while row < 9
        invariant
            board.wf(),
            row <= 9,
            squares@.len() == row * 9,
            forall|k: int|
                0 <= k < row * 9 ==> squares@[k] == spec_to_absolute_board(board@, p)[k],
        decreases 9 - row,
    {
        let mut col: usize = 0;
        while col < 9
            invariant
                board.wf(),
                row < 9,
                col <= 9,
                squares@.len() == row * 9 + col,
                forall|k: int|
                    0 <= k < row * 9 + col ==> squares@[k] == spec_to_absolute_board(board@, p)[k],
            decreases 9 - col,
        {
            let rel = if p.ia_is_down() {
                relative::Coord { row, col }
            } else {
                relative::Coord { row: 8 - row, col: 8 - col }
            };
            let converted = match board.get(rel) {
                None => None,
                Some(piece) => Some(to_absolute_piece(piece, p)),
            };
            squares.push(converted);
            col = col + 1;
        }
        row = row + 1;
    }
    let r = absolute::Board { squares };
    proof {
        assert(r@ =~= spec_to_absolute_board(board@, p));
        assert forall|c: relative::Coord| c.is_valid() implies r.piece_at(
            spec_to_absolute_coord(c, p),
        ) == spec_opt_to_absolute_piece(board.cell(c.row as int, c.col as int), p) by {
            lemma_abs_coord_flat_index(c, p);
        }
    }
    r
}

/// Converts an absolute board into a relative board: every one of the
/// 81 coordinates is probed; present pieces are converted and placed,
/// absent ones yield an empty cell. The result is always dense: all 81
/// cells are present.
#[must_use]
pub fn to_relative_board(board: &absolute::Board, p: Perspective) -> (r: relative::Board)
    requires
        board.wf(),
    ensures
        r.wf(),
        r@ == spec_to_relative_board(board@, p),
        forall|c: relative::Coord|
            c.is_valid() ==> r.cell(c.row as int, c.col as int) == spec_opt_to_relative_piece(
                board.piece_at(spec_to_absolute_coord(c, p)),
                p,
            ),
{
    let mut cells: Vec<Option<relative::Piece>> = Vec::new();
    let mut row: usize = 0;
    while row < 9
        invariant
            board.wf(),
            row <= 9,
            cells@.len() == row * 9,
            forall|k: int| 0 <= k < row * 9 ==> cells@[k] == spec_to_relative_board(board@, p)[k],
        decreases 9 - row,
    {
        let mut col: usize = 0;
        while col < 9
            invariant
                board.wf(),
                row < 9,
                col <= 9,
                cells@.len() == row * 9 + col,
                forall|k: int|
                    0 <= k < row * 9 + col ==> cells@[k] == spec_to_relative_board(board@, p)[k],
            decreases 9 - col,
        {
            let rel = relative::Coord { row, col };
            let abs_coord = to_absolute_coord(rel, p);
            let converted = match board.get(abs_coord) {
                None => None,
                Some(piece) => Some(to_relative_piece(piece, p)),
            };
            proof {
                lemma_abs_coord_flat_index(rel, p);
            }
            cells.push(converted);
            col = col + 1;
        }
        row = row + 1;
    }
    let r = relative::Board { cells };
    proof {
        assert(r@ =~= spec_to_relative_board(board@, p));
        assert forall|c: relative::Coord| c.is_valid() implies r.cell(c.row as int, c.col as int)
            == spec_opt_to_relative_piece(board.piece_at(spec_to_absolute_coord(c, p)), p) by {
            lemma_abs_coord_flat_index(c, p);
        }
    }
    r
}

/// Converting an absolute board to the relative frame and back under
/// one perspective restores it, square for square.
pub proof fn lemma_board_roundtrip_absolute(s: Seq<Option<absolute::Piece>>, p: Perspective)
    requires
        s.len() == 81,
    ensures
        spec_to_absolute_board(spec_to_relative_board(s, p), p) =~= s,
{
    assert forall|k: int|
        0 <= k < 81 implies spec_to_absolute_board(spec_to_relative_board(s, p), p)[k] == s[k] by {
        match s[k] {
            None => {},
            Some(piece) => {
                lemma_piece_roundtrip_absolute(piece, p);
            },
        }
    }
}

/// Converting a relative board to the absolute frame and back under one
/// perspective restores it, cell for cell.
pub proof fn lemma_board_roundtrip_relative(s: Seq<Option<relative::Piece>>, p: Perspective)
    requires
        s.len() == 81,
    ensures
        spec_to_relative_board(spec_to_absolute_board(s, p), p) =~= s,
{
    assert forall|k: int|
        0 <= k < 81 implies spec_to_relative_board(spec_to_absolute_board(s, p), p)[k] == s[k] by {
        match s[k] {
            None => {},
            Some(piece) => {
                lemma_piece_roundtrip_relative(piece, p);
            },
        }
    }
}

/// Strips the upward tag off reserve entries, keeping color and
/// profession.
pub open spec fn spec_strip_up(s: Seq<relative::NonTam2PieceUpward>) -> Seq<
    absolute::NonTam2Piece,
> {
    s.map_values(
        |x: relative::NonTam2PieceUpward| absolute::NonTam2Piece { color: x.color, prof: x.prof },
    )
}

/// Strips the downward tag off reserve entries, keeping color and
/// profession.
pub open spec fn spec_strip_down(s: Seq<relative::NonTam2PieceDownward>) -> Seq<
    absolute::NonTam2Piece,
> {
    s.map_values(
        |x: relative::NonTam2PieceDownward| absolute::NonTam2Piece { color: x.color, prof: x.prof },
    )
}

/// Tags reserve entries as pointing upward, keeping color and
/// profession.
pub open spec fn spec_tag_up(s: Seq<absolute::NonTam2Piece>) -> Seq<relative::NonTam2PieceUpward> {
    s.map_values(
        |x: absolute::NonTam2Piece| relative::NonTam2PieceUpward { color: x.color, prof: x.prof },
    )
}

/// Tags reserve entries as pointing downward, keeping color and
/// profession.
pub open spec fn spec_tag_down(s: Seq<absolute::NonTam2Piece>) -> Seq<
    relative::NonTam2PieceDownward,
> {
    s.map_values(
        |x: absolute::NonTam2Piece| relative::NonTam2PieceDownward { color: x.color, prof: x.prof },
    )
}

fn strip_up(v: &Vec<relative::NonTam2PieceUpward>) -> (r: Vec<absolute::NonTam2Piece>)
    ensures
        r@ == spec_strip_up(v@),
{
    let mut r: Vec<absolute::NonTam2Piece> = Vec::new();
    let n = v.len();
    let mut i: usize = 0;
    while i < n
        invariant
            i <= n,
            n == v@.len(),
            r@.len() == i,
            forall|j: int|
                0 <= j < i ==> r@[j] == (absolute::NonTam2Piece {
                    color: v@[j].color,
                    prof: v@[j].prof,
                }),
        decreases n - i,
    {
        r.push(absolute::NonTam2Piece { color: v[i].color, prof: v[i].prof });
        i = i + 1;
    }
    proof {
        assert(r@ =~= spec_strip_up(v@));
    }
    r
}

fn strip_down(v: &Vec<relative::NonTam2PieceDownward>) -> (r: Vec<absolute::NonTam2Piece>)
    ensures
        r@ == spec_strip_down(v@),
{
    let mut r: Vec<absolute::NonTam2Piece> = Vec::new();
    let n = v.len();
    let mut i: usize = 0;
    while i < n
        invariant
            i <= n,
            n == v@.len(),
            r@.len() == i,
            forall|j: int|
                0 <= j < i ==> r@[j] == (absolute::NonTam2Piece {
                    color: v@[j].color,
                    prof: v@[j].prof,
                }),
        decreases n - i,
    {
        r.push(absolute::NonTam2Piece { color: v[i].color, prof: v[i].prof });
        i = i + 1;
    }
    proof {
        assert(r@ =~= spec_strip_down(v@));
    }
    r
}

fn tag_up(v: &Vec<absolute::NonTam2Piece>) -> (r: Vec<relative::NonTam2PieceUpward>)
    ensures
        r@ == spec_tag_up(v@),
{
    let mut r: Vec<relative::NonTam2PieceUpward> = Vec::new();
    let n = v.len();
    let mut i: usize = 0;
    while i < n
        invariant
            i <= n,
            n == v@.len(),
            r@.len() == i,
            forall|j: int|
                0 <= j < i ==> r@[j] == (relative::NonTam2PieceUpward {
                    color: v@[j].color,
                    prof: v@[j].prof,
                }),
        decreases n - i,
    {
        r.push(relative::NonTam2PieceUpward { color: v[i].color, prof: v[i].prof });
        i = i + 1;
    }
    proof {
        assert(r@ =~= spec_tag_up(v@));
    }
    r
}

fn tag_down(v: &Vec<absolute::NonTam2Piece>) -> (r: Vec<relative::NonTam2PieceDownward>)
    ensures
        r@ == spec_tag_down(v@),
{
    let mut r: Vec<relative::NonTam2PieceDownward> = Vec::new();
    let n = v.len();
    let mut i: usize = 0;
    while i < n
        invariant
            i <= n,
            n == v@.len(),
            r@.len() == i,
            forall|j: int|
                0 <= j < i ==> r@[j] == (relative::NonTam2PieceDownward {
                    color: v@[j].color,
                    prof: v@[j].prof,
                }),
        decreases n - i,
    {
        r.push(relative::NonTam2PieceDownward { color: v[i].color, prof: v[i].prof });
        i = i + 1;
    }
    proof {
        assert(r@ =~= spec_tag_down(v@));
    }
    r
}

/// Stripping the upward tag after tagging restores the reserve.
pub proof fn lemma_reserve_roundtrip_up(s: Seq<absolute::NonTam2Piece>)
    ensures
        spec_strip_up(spec_tag_up(s)) =~= s,
{
}

/// Stripping the downward tag after tagging restores the reserve.
pub proof fn lemma_reserve_roundtrip_down(s: Seq<absolute::NonTam2Piece>)
    ensures
        spec_strip_down(spec_tag_down(s)) =~= s,
{
}

/// Tagging an upward reserve after stripping restores it.
pub proof fn lemma_reserve_roundtrip_tagged_up(s: Seq<relative::NonTam2PieceUpward>)
    ensures
        spec_tag_up(spec_strip_up(s)) =~= s,
{
}

/// Tagging a downward reserve after stripping restores it.
pub proof fn lemma_reserve_roundtrip_tagged_down(s: Seq<relative::NonTam2PieceDownward>)
    ensures
        spec_tag_down(spec_strip_down(s)) =~= s,
{
}

/// Converts a relative field into an absolute field: the board is
/// converted cell by cell, and each reserve goes to the absolute side
/// that the perspective maps its relative side to — the same mapping
/// that the pieces on the board follow.
#[must_use]
pub fn to_absolute_field(field: relative::Field, p: Perspective) -> (r: absolute::Field)
    requires
        field.wf(),
    ensures
        r.wf(),
        r.board@ == spec_to_absolute_board(field.current_board@, p),
        p.spec_ia_is_down() ==> r.ia_side_hop1zuo1@ == spec_strip_up(field.hop1zuo1of_upward@)
            && r.a_side_hop1zuo1@ == spec_strip_down(field.hop1zuo1of_downward@),
        !p.spec_ia_is_down() ==> r.ia_side_hop1zuo1@ == spec_strip_down(field.hop1zuo1of_downward@)
            && r.a_side_hop1zuo1@ == spec_strip_up(field.hop1zuo1of_upward@),
{
    let board = to_absolute_board(&field.current_board, p);
    if p.ia_is_down() {
        absolute::Field {
            board,
            ia_side_hop1zuo1: strip_up(&field.hop1zuo1of_upward),
            a_side_hop1zuo1: strip_down(&field.hop1zuo1of_downward),
        }
    } else {
        absolute::Field {
            board,
            ia_side_hop1zuo1: strip_down(&field.hop1zuo1of_downward),
            a_side_hop1zuo1: strip_up(&field.hop1zuo1of_upward),
        }
    }
}

/// Converts an absolute field into a relative field: the board is
/// converted cell by cell, and each reserve goes to the relative side
/// that the perspective maps its absolute side to — the same mapping
/// that the pieces on the board follow.
#[must_use]
pub fn to_relative_field(field: absolute::Field, p: Perspective) -> (r: relative::Field)
    requires
        field.wf(),
    ensures
        r.wf(),
        r.current_board@ == spec_to_relative_board(field.board@, p),
        p.spec_ia_is_down() ==> r.hop1zuo1of_upward@ == spec_tag_up(field.ia_side_hop1zuo1@)
            && r.hop1zuo1of_downward@ == spec_tag_down(field.a_side_hop1zuo1@),
        !p.spec_ia_is_down() ==> r.hop1zuo1of_upward@ == spec_tag_up(field.a_side_hop1zuo1@)
            && r.hop1zuo1of_downward@ == spec_tag_down(field.ia_side_hop1zuo1@),
{
    let current_board = to_relative_board(&field.board, p);
    if p.ia_is_down() {
        relative::Field {
            current_board,
            hop1zuo1of_upward: tag_up(&field.ia_side_hop1zuo1),
            hop1zuo1of_downward: tag_down(&field.a_side_hop1zuo1),
        }
    } else {
        relative::Field {
            current_board,
            hop1zuo1of_upward: tag_up(&field.a_side_hop1zuo1),
            hop1zuo1of_downward: tag_down(&field.ia_side_hop1zuo1),
        }
    }
}

/// Converting an absolute field to the relative frame and back under
/// one perspective restores it: the board square for square, and each
/// side's reserve entry for entry. The premises are exactly what the
/// two field conversions ensure about their results.
pub proof fn lemma_field_roundtrip_absolute(
    f: absolute::Field,
    g: relative::Field,
    h: absolute::Field,
    p: Perspective,
)
    requires
        f.wf(),
        g.current_board@ == spec_to_relative_board(f.board@, p),
        p.spec_ia_is_down() ==> g.hop1zuo1of_upward@ == spec_tag_up(f.ia_side_hop1zuo1@)
            && g.hop1zuo1of_downward@ == spec_tag_down(f.a_side_hop1zuo1@),
        !p.spec_ia_is_down() ==> g.hop1zuo1of_upward@ == spec_tag_up(f.a_side_hop1zuo1@)
            && g.hop1zuo1of_downward@ == spec_tag_down(f.ia_side_hop1zuo1@),
        h.board@ == spec_to_absolute_board(g.current_board@, p),
        p.spec_ia_is_down() ==> h.ia_side_hop1zuo1@ == spec_strip_up(g.hop1zuo1of_upward@)
            && h.a_side_hop1zuo1@ == spec_strip_down(g.hop1zuo1of_downward@),
        !p.spec_ia_is_down() ==> h.ia_side_hop1zuo1@ == spec_strip_down(g.hop1zuo1of_downward@)
            && h.a_side_hop1zuo1@ == spec_strip_up(g.hop1zuo1of_upward@),
    ensures
        h.board@ == f.board@,
        h.a_side_hop1zuo1@ == f.a_side_hop1zuo1@,
        h.ia_side_hop1zuo1@ == f.ia_side_hop1zuo1@,
{
    lemma_board_roundtrip_absolute(f.board@, p);
    lemma_reserve_roundtrip_up(f.ia_side_hop1zuo1@);
    lemma_reserve_roundtrip_up(f.a_side_hop1zuo1@);
    lemma_reserve_roundtrip_down(f.a_side_hop1zuo1@);
    lemma_reserve_roundtrip_down(f.ia_side_hop1zuo1@);
}

/// Converting a relative field to the absolute frame and back under one
/// perspective restores it: the board cell for cell, and each side's
/// reserve entry for entry. The premises are exactly what the two field
/// conversions ensure about their results.
pub proof fn lemma_field_roundtrip_relative(
    f: relative::Field,
    g: absolute::Field,
    h: relative::Field,
    p: Perspective,
)
    requires
        f.wf(),
        g.board@ == spec_to_absolute_board(f.current_board@, p),
        p.spec_ia_is_down() ==> g.ia_side_hop1zuo1@ == spec_strip_up(f.hop1zuo1of_upward@)
            && g.a_side_hop1zuo1@ == spec_strip_down(f.hop1zuo1of_downward@),
        !p.spec_ia_is_down() ==> g.ia_side_hop1zuo1@ == spec_strip_down(f.hop1zuo1of_downward@)
            && g.a_side_hop1zuo1@ == spec_strip_up(f.hop1zuo1of_upward@),
        h.current_board@ == spec_to_relative_board(g.board@, p),
        p.spec_ia_is_down() ==> h.hop1zuo1of_upward@ == spec_tag_up(g.ia_side_hop1zuo1@)
            && h.hop1zuo1of_downward@ == spec_tag_down(g.a_side_hop1zuo1@),
        !p.spec_ia_is_down() ==> h.hop1zuo1of_upward@ == spec_tag_up(g.a_side_hop1zuo1@)
            && h.hop1zuo1of_downward@ == spec_tag_down(g.ia_side_hop1zuo1@),
    ensures
        h.current_board@ == f.current_board@,
        h.hop1zuo1of_upward@ == f.hop1zuo1of_upward@,
        h.hop1zuo1of_downward@ == f.hop1zuo1of_downward@,
{
    lemma_board_roundtrip_relative(f.current_board@, p);
    lemma_reserve_roundtrip_tagged_up(f.hop1zuo1of_upward@);
    lemma_reserve_roundtrip_tagged_down(f.hop1zuo1of_downward@);
}

/// One square of the initial-layout cross-check: converting what the
/// canonical relative initial layout holds at some indices, under the
/// perspective that maps index 0 directly, yields what the absolute
/// initial layout holds at the correspondingly labeled square.
pub proof fn lemma_initial_layout_consistent(r2: int, c2: int)
    requires
        0 <= r2 < 9,
        0 <= c2 < 9,
    ensures
        spec_opt_to_absolute_piece(
            relative::spec_initial_black_up(r2, c2),
            Perspective::IaIsDownAndPointsUpward,
        ) == absolute::spec_initial_board_piece(
            absolute::Coord(absolute::row_of_index(r2), absolute::col_of_index(c2)),
        ),
{
}

/// The initial-layout cross-check: a board that holds the canonical
/// relative initial layout, converted under the perspective that maps
/// index 0 directly, holds the published absolute initial layout,
/// square for square.
pub proof fn lemma_initial_board_consistent(s: Seq<Option<relative::Piece>>)
    requires
        s.len() == 81,
        forall|r2: int, c2: int|
            0 <= r2 < 9 && 0 <= c2 < 9 ==> s[r2 * 9 + c2] == relative::spec_initial_black_up(
                r2,
                c2,
            ),
    ensures
        forall|c: absolute::Coord|
            spec_to_absolute_board(s, Perspective::IaIsDownAndPointsUpward)[absolute::coord_index(
                c,
            )] == absolute::spec_initial_board_piece(c),
{
    assert forall|c: absolute::Coord|
        spec_to_absolute_board(s, Perspective::IaIsDownAndPointsUpward)[absolute::coord_index(c)]
            == absolute::spec_initial_board_piece(c) by {
        let r2 = absolute::row_index(c.0);
        let c2 = absolute::col_index(c.1);
        lemma_initial_layout_consistent(r2, c2);
        assert(absolute::row_of_index(r2) == c.0);
        assert(absolute::col_of_index(c2) == c.1);
    }
}

} // verus!
