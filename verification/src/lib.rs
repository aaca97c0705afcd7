//! Core data types for a two-player board game played on a 9x9 grid,
//! together with the perspective engine that converts between the
//! absolute coordinate frame (fixed board labels, fixed player
//! identities) and the relative, egocentric frame.
//!
//! * [`absolute`] speaks in terms of fixed board labels: "which piece
//!   lies in the square ZIA?"
//! * [`relative`] speaks in terms of an egocentric view: "which piece
//!   is the opponent's?"
//! * [`perspective`] converts between the two, given a choice of which
//!   absolute player is the egocentric "self".

use vstd::prelude::*;

pub mod absolute;
pub mod perspective;
pub mod relative;

verus! {

/// Denotes the color of a piece.
#[derive(PartialEq, Eq, Clone, Copy, Debug, Hash, Structural)]
pub enum Color {
    /// Red
    Kok1,
    /// Black
    Huok2,
}

/// Denotes the profession of a piece.
#[derive(PartialEq, Eq, Clone, Copy, Debug, Hash, Structural)]
pub enum Profession {
    /// Vessel
    Nuak1,
    /// Pawn
    Kauk2,
    /// Rook
    Gua2,
    /// Bishop
    Kaun1,
    /// Tiger
    Dau2,
    /// Horse
    Maun1,
    /// Clerk
    Kua2,
    /// Shaman
    Tuk2,
    /// General
    Uai1,
    /// King
    Io,
}

/// The character sequence that stands for a color in the human-readable
/// rendering.
pub open spec fn spec_color_str(color: Color) -> Seq<char> {
    match color {
        Color::Huok2 => "黒"@,
        Color::Kok1 => "赤"@,
    }
}

/// Serializes a [`Color`] as its one-character display token.
#[must_use]
pub fn serialize_color(color: Color) -> (r: &'static str)
    ensures
        r@ == spec_color_str(color),
{
    match color {
        Color::Huok2 => "黒",
        Color::Kok1 => "赤",
    }
}

/// The character sequence that stands for a profession in the
/// human-readable rendering.
pub open spec fn spec_prof_str(prof: Profession) -> Seq<char> {
    match prof {
        Profession::Nuak1 => "船"@,
        Profession::Kauk2 => "兵"@,
        Profession::Gua2 => "弓"@,
        Profession::Kaun1 => "車"@,
        Profession::Dau2 => "虎"@,
        Profession::Maun1 => "馬"@,
        Profession::Kua2 => "筆"@,
        Profession::Tuk2 => "巫"@,
        Profession::Uai1 => "将"@,
        Profession::Io => "王"@,
    }
}

/// Serializes a [`Profession`] as its one-character display token.
#[must_use]
pub fn serialize_prof(prof: Profession) -> (r: &'static str)
    ensures
        r@ == spec_prof_str(prof),
{
    match prof {
        Profession::Nuak1 => "船",
        Profession::Kauk2 => "兵",
        Profession::Gua2 => "弓",
        Profession::Kaun1 => "車",
        Profession::Dau2 => "虎",
        Profession::Maun1 => "馬",
        Profession::Kua2 => "筆",
        Profession::Tuk2 => "巫",
        Profession::Uai1 => "将",
        Profession::Io => "王",
    }
}

/// What `str::to_lowercase` returns for a given sequence of characters.
/// The result is a function of the characters alone.
pub uninterp spec fn lower_of(s: Seq<char>) -> Seq<char>;

/// Relies on `str::to_lowercase`: Unicode-lowercases every character of
/// the input; the result depends on the input characters alone.
#[verifier::external_body]
fn to_lowercase_string(s: &str) -> (r: String)
    ensures
        r@ == lower_of(s@),
{
    s.to_lowercase()
}

/// Compares two string slices character by character.
pub(crate) fn str_eq(a: &str, b: &str) -> (r: bool)
    ensures
        r == (a@ == b@),
{
    let alen = a.unicode_len();
    let blen = b.unicode_len();
    if alen != blen {
        return false;
    }
    let mut i: usize = 0;
    while i < alen
        invariant
            i <= alen,
            alen == a@.len(),
            alen == b@.len(),
            forall|j: int| 0 <= j < i ==> a@[j] == b@[j],
        decreases alen - i,
    {
        if a.get_char(i) != b.get_char(i) {
            return false;
        }
        i = i + 1;
    }
    proof {
        assert(a@ =~= b@);
    }
    true
}

/// Which profession a synonym names, once the synonym has been
/// lowercased. Synonyms cover English, the game's original names, and a
/// few other spellings; anything else names no profession.
pub open spec fn spec_parse_profession(s: Seq<char>) -> Option<Profession> {
    if s == "vessel"@ || s == "船"@ || s == "felkana"@ || s == "nuak1"@ || s == "muak1"@
        || s == "pelkana"@ || s == "pijume"@ || s == "muak"@ {
        Some(Profession::Nuak1)
    } else if s == "pawn"@ || s == "兵"@ || s == "elmer"@ || s == "kauk2"@ || s == "elme"@
        || s == "kauk"@ {
        Some(Profession::Kauk2)
    } else if s == "rook"@ || s == "弓"@ || s == "gustuer"@ || s == "gua2"@ || s == "kucte"@
        || s == "kuctu"@ {
        Some(Profession::Gua2)
    } else if s == "bishop"@ || s == "車"@ || s == "车"@ || s == "vadyrd"@ || s == "kaun1"@
        || s == "badut"@ || s == "xije"@ || s == "kaun"@ {
        Some(Profession::Kaun1)
    } else if s == "tiger"@ || s == "虎"@ || s == "stistyst"@ || s == "dau2"@ || s == "cictus"@
        || s == "cucit"@ || s == "dau"@ {
        Some(Profession::Dau2)
    } else if s == "horse"@ || s == "馬"@ || s == "马"@ || s == "dodor"@ || s == "maun1"@
        || s == "dodo"@ || s == "maun"@ {
        Some(Profession::Maun1)
    } else if s == "clerk"@ || s == "筆"@ || s == "笔"@ || s == "kua"@ || s == "kua2"@
        || s == "kuwa"@ {
        Some(Profession::Kua2)
    } else if s == "shaman"@ || s == "巫"@ || s == "terlsk"@ || s == "tuk2"@ || s == "tamcuk"@
        || s == "tancuk"@ {
        Some(Profession::Tuk2)
    } else if s == "general"@ || s == "将"@ || s == "varxle"@ || s == "uai1"@ || s == "baxule"@
        || s == "xan"@ || s == "wai"@ {
        Some(Profession::Uai1)
    } else if s == "king"@ || s == "王"@ || s == "ales"@ || s == "io"@ || s == "xet"@
        || s == "caupla"@ {
        Some(Profession::Io)
    } else {
        None
    }
}

/// Looks an already-lowercased synonym up in the profession table.
#[must_use]
pub fn parse_profession_folded(s: &str) -> (r: Option<Profession>)
    ensures
        r == spec_parse_profession(s@),
{
    if str_eq(s, "vessel") || str_eq(s, "船") || str_eq(s, "felkana") || str_eq(s, "nuak1")
        || str_eq(s, "muak1") || str_eq(s, "pelkana") || str_eq(s, "pijume") || str_eq(s, "muak") {
        Some(Profession::Nuak1)
    } else if str_eq(s, "pawn") || str_eq(s, "兵") || str_eq(s, "elmer") || str_eq(s, "kauk2")
        || str_eq(s, "elme") || str_eq(s, "kauk") {
        Some(Profession::Kauk2)
    } else if str_eq(s, "rook") || str_eq(s, "弓") || str_eq(s, "gustuer") || str_eq(s, "gua2")
        || str_eq(s, "kucte") || str_eq(s, "kuctu") {
        Some(Profession::Gua2)
    } else if str_eq(s, "bishop") || str_eq(s, "車") || str_eq(s, "车") || str_eq(s, "vadyrd")
        || str_eq(s, "kaun1") || str_eq(s, "badut") || str_eq(s, "xije") || str_eq(s, "kaun") {
        Some(Profession::Kaun1)
    } else if str_eq(s, "tiger") || str_eq(s, "虎") || str_eq(s, "stistyst") || str_eq(s, "dau2")
        || str_eq(s, "cictus") || str_eq(s, "cucit") || str_eq(s, "dau") {
        Some(Profession::Dau2)
    } else if str_eq(s, "horse") || str_eq(s, "馬") || str_eq(s, "马") || str_eq(s, "dodor")
        || str_eq(s, "maun1") || str_eq(s, "dodo") || str_eq(s, "maun") {
        Some(Profession::Maun1)
    } else if str_eq(s, "clerk") || str_eq(s, "筆") || str_eq(s, "笔") || str_eq(s, "kua")
        || str_eq(s, "kua2") || str_eq(s, "kuwa") {
        Some(Profession::Kua2)
    } else if str_eq(s, "shaman") || str_eq(s, "巫") || str_eq(s, "terlsk") || str_eq(s, "tuk2")
        || str_eq(s, "tamcuk") || str_eq(s, "tancuk") {
        Some(Profession::Tuk2)
    } else if str_eq(s, "general") || str_eq(s, "将") || str_eq(s, "varxle") || str_eq(s, "uai1")
        || str_eq(s, "baxule") || str_eq(s, "xan") || str_eq(s, "wai") {
        Some(Profession::Uai1)
    } else if str_eq(s, "king") || str_eq(s, "王") || str_eq(s, "ales") || str_eq(s, "io")
        || str_eq(s, "xet") || str_eq(s, "caupla") {
        Some(Profession::Io)
    } else {
        None
    }
}

/// Parses a [`Profession`] from any of its synonyms, first lowercasing
/// the input.
#[must_use]
pub fn parse_profession(s: &str) -> (r: Option<Profession>)
    ensures
        r == spec_parse_profession(lower_of(s@)),
{
    let folded = to_lowercase_string(s);
    parse_profession_folded(folded.as_str())
}

/// Which color a synonym names, once the synonym has been lowercased.
pub open spec fn spec_parse_color(s: Seq<char>) -> Option<Color> {
    if s == "red"@ || s == "赤"@ || s == "kok1"@ || s == "红"@ || s == "紅"@ {
        Some(Color::Kok1)
    } else if s == "black"@ || s == "黒"@ || s == "huok2"@ || s == "黑"@ {
        Some(Color::Huok2)
    } else {
        None
    }
}

/// Looks an already-lowercased synonym up in the color table.
#[must_use]
pub fn parse_color_folded(s: &str) -> (r: Option<Color>)
    ensures
        r == spec_parse_color(s@),
{
    if str_eq(s, "red") || str_eq(s, "赤") || str_eq(s, "kok1") || str_eq(s, "红")
        || str_eq(s, "紅") {
        Some(Color::Kok1)
    } else if str_eq(s, "black") || str_eq(s, "黒") || str_eq(s, "huok2") || str_eq(s, "黑") {
        Some(Color::Huok2)
    } else {
        None
    }
}

/// Parses a [`Color`] from any of its synonyms, first lowercasing the
/// input.
#[must_use]
pub fn parse_color(s: &str) -> (r: Option<Color>)
    ensures
        r == spec_parse_color(lower_of(s@)),
{
    let folded = to_lowercase_string(s);
    parse_color_folded(folded.as_str())
}

/// Copies a vector of plain values element by element.
pub(crate) fn copy_vec<T: Copy>(v: &Vec<T>) -> (r: Vec<T>)
    ensures
        r@ == v@,
{
    let mut r: Vec<T> = Vec::new();
    let mut i: usize = 0;
    let n = v.len();
    while i < n
        invariant
            i <= n,
            n == v@.len(),
            r@ =~= v@.subrange(0, i as int),
        decreases n - i,
    {
        r.push(v[i]);
        i = i + 1;
    }
    proof {
        assert(r@ =~= v@);
    }
    r
}

/// Removes the first occurrence of `x` from `s`, if there is one.
pub open spec fn spec_remove_first<T>(s: Seq<T>, x: T) -> Option<Seq<T>> {
    match s.index_of_first(x) {
        Some(i) => Some(s.remove(i)),
        None => None,
    }
}

/// Removing the first occurrence of the only matching entry leaves a
/// sequence in which no entry matches, so a second removal of the same
/// value finds nothing.
pub proof fn lemma_remove_first_then_absent<T>(s: Seq<T>, x: T)
    requires
        s.contains(x),
        forall|i: int, j: int| 0 <= i < j < s.len() && s[i] == x ==> s[j] != x,
    ensures
        spec_remove_first(s, x) matches Some(t) && spec_remove_first(t, x) is None,
{
    s.index_of_first_ensures(x);
    let i = s.index_of_first(x)->Some_0;
    let t = s.remove(i);
    assert forall|k: int| 0 <= k < t.len() implies t[k] != x by {
        if k < i {
            assert(t[k] == s[k]);
        } else {
            assert(t[k] == s[k + 1]);
            assert(s[i] == x);
        }
    }
    t.index_of_first_ensures(x);
    if t.contains(x) {
        let w = choose|w: int| 0 <= w < t.len() && t[w] == x;
        assert(t[w] != x);
    }
}

impl core::str::FromStr for Profession {
    type Err = ();

    fn from_str(s: &str) -> Result<Self, Self::Err> {
        match parse_profession(s) {
            Some(p) => Ok(p),
            None => Err(()),
        }
    }
}

impl core::str::FromStr for Color {
    type Err = ();

    fn from_str(s: &str) -> Result<Self, Self::Err> {
        match parse_color(s) {
            Some(c) => Ok(c),
            None => Err(()),
        }
    }
}

} // verus!

