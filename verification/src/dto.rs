//! Response shapes mirrored from the routing engine's vocabulary, and the
//! conversion from the engine's location record to the match record the map
//! client expects.
//!
//! Numeric coordinate and score fields are carried as IEEE 754 bit
//! patterns: the gateway preserves them untouched, so only their identity
//! matters here.

use vstd::prelude::*;

verus! {

/// The bit pattern of one 64-bit floating-point field, carried through
/// without interpretation.
#[derive(Debug, Clone, Copy, PartialEq, Eq, Structural)]
pub struct FloatBits {
    pub bits: u64,
}

/// An administrative area as the engine reports it.
#[derive(Debug)]
pub struct Area {
    pub name: String,
    pub admin_level: i32,
    pub matched: bool,
    pub unique: bool,
    pub is_default: bool,
}

/// An administrative area in the client-facing match shape, where every
/// attribute is optional.
#[derive(Debug)]
pub struct MatchArea {
    pub name: String,
    pub admin_level: Option<i32>,
    pub matched: Option<bool>,
    pub unique: Option<bool>,
    pub is_default: Option<bool>,
}

impl Clone for MatchArea {
    fn clone(&self) -> (r: Self)
        ensures
            r == *self,
    {
        MatchArea {
            name: self.name.clone(),
            admin_level: self.admin_level,
            matched: self.matched,
            unique: self.unique,
            is_default: self.is_default,
        }
    }
}

/// A token span `[start, length]` into the matched name.
#[derive(Debug, Clone, Copy, PartialEq, Eq, Structural)]
pub struct Token {
    pub start: i32,
    pub len: i32,
}

/// A location record as the engine's geocoder reports it.
#[derive(Debug)]
pub struct LocationResult {
    pub name: String,
    pub place_id: String,
    pub lat: FloatBits,
    pub lon: FloatBits,
    pub type_: Option<String>,
    pub areas: Vec<MatchArea>,
    pub tokens: Vec<Vec<i32>>,
    pub score: FloatBits,
    pub category: Option<String>,
    pub modes: Option<Vec<String>>,
    pub importance: Option<FloatBits>,
    pub street: Option<String>,
    pub house_number: Option<String>,
    pub country: Option<String>,
    pub zip: Option<String>,
}

/// The match record the map client expects.
#[derive(Debug)]
pub struct Match {
    pub type_: String,
    pub name: String,
    pub id: String,
    pub lat: FloatBits,
    pub lon: FloatBits,
    pub tokens: Vec<Token>,
    pub areas: Vec<MatchArea>,
    pub score: FloatBits,
    pub category: Option<String>,
    pub street: Option<String>,
    pub house_number: Option<String>,
    pub country: Option<String>,
    pub zip: Option<String>,
    pub tz: Option<String>,
    pub level: Option<FloatBits>,
    pub modes: Option<Vec<String>>,
    pub importance: Option<FloatBits>,
}

/// The text of an optional string field.
pub open spec fn opt_text(o: Option<String>) -> Option<Seq<char>> {
    match o {
        Some(s) => Some(s@),
        None => None,
    }
}

/// The texts of a list of strings.
pub open spec fn texts_of(v: Seq<String>) -> Seq<Seq<char>> {
    v.map_values(|s: String| s@)
}

/// The texts of an optional list of strings.
pub open spec fn opt_texts(o: Option<Vec<String>>) -> Option<Seq<Seq<char>>> {
    match o {
        Some(v) => Some(texts_of(v@)),
        None => None,
    }
}

/// The token spans kept from the engine's token lists: every list with at
/// least two entries contributes its first two, in order; shorter lists
/// are dropped.
pub open spec fn tokens_of(ts: Seq<Vec<i32>>) -> Seq<Token>
    decreases ts.len(),
{
    if ts.len() == 0 {
        Seq::empty()
    } else {
        let rest = tokens_of(ts.drop_last());
        if ts.last()@.len() >= 2 {
            rest.push(Token { start: ts.last()@[0], len: ts.last()@[1] })
        } else {
            rest
        }
    }
}

fn clone_opt_text(o: &Option<String>) -> (r: Option<String>)
    ensures
        opt_text(r) == opt_text(*o),
{
    match o {
        Some(s) => Some(s.clone()),
        None => None,
    }
}

fn clone_opt_texts(o: &Option<Vec<String>>) -> (r: Option<Vec<String>>)
    ensures
        opt_texts(r) == opt_texts(*o),
{
    match o {
        Some(v) => {
            let mut out: Vec<String> = Vec::new();
            let mut i: usize = 0;
            while i < v.len()
                invariant
                    i <= v.len(),
                    out@.len() == i,
                    forall|j: int| 0 <= j < i ==> out@[j]@ == #[trigger] v@[j]@,
                decreases v.len() - i,
            {
                out.push(v[i].clone());
                i += 1;
            }
            assert(texts_of(out@) =~= texts_of(v@));
            Some(out)
        },
        None => None,
    }
}

fn clone_areas(v: &Vec<MatchArea>) -> (r: Vec<MatchArea>)
    ensures
        r@ == v@,
{
    let mut out: Vec<MatchArea> = Vec::new();
    let mut i: usize = 0;
    while i < v.len()
        invariant
            i <= v.len(),
            out@.len() == i,
            forall|j: int| 0 <= j < i ==> out@[j] == v@[j],
        decreases v.len() - i,
    {
        out.push(v[i].clone());
        i += 1;
    }
    assert(out@ =~= v@);
    out
}

fn convert_tokens(ts: &Vec<Vec<i32>>) -> (r: Vec<Token>)
    ensures
        r@ == tokens_of(ts@),
{
    let mut out: Vec<Token> = Vec::new();
    let mut i: usize = 0;
    while i < ts.len()
        invariant
            i <= ts.len(),
            out@ == tokens_of(ts@.subrange(0, i as int)),
        decreases ts.len() - i,
    {
        let t = &ts[i];
        proof {
            let pre = ts@.subrange(0, i as int);
            let ext = ts@.subrange(0, i + 1);
            assert(ext.drop_last() =~= pre);
            assert(ext.last() == ts@[i as int]);
        }
        if t.len() >= 2 {
            out.push(Token { start: t[0], len: t[1] });
        }
        i += 1;
    }
    assert(ts@.subrange(0, ts@.len() as int) =~= ts@);
    out
}

impl Match {
    /// Build the client-facing match from an engine location record: the
    /// type defaults to `PLACE`, token lists shorter than two entries are
    /// dropped, coordinates and scores pass through bit-for-bit, and the
    /// fields the engine does not yet report stay empty.
    pub fn from_location_result(loc: &LocationResult) -> (r: Self)
        ensures
            r.type_@ == (match opt_text(loc.type_) {
                Some(t) => t,
                None => "PLACE"@,
            }),
            r.name@ == loc.name@,
            r.id@ == loc.place_id@,
            r.lat == loc.lat,
            r.lon == loc.lon,
            r.score == loc.score,
            r.tokens@ == tokens_of(loc.tokens@),
            r.areas@ == loc.areas@,
            opt_text(r.category) == opt_text(loc.category),
            opt_text(r.street) == opt_text(loc.street),
            opt_text(r.house_number) == opt_text(loc.house_number),
            opt_text(r.country) == opt_text(loc.country),
            opt_text(r.zip) == opt_text(loc.zip),
            r.tz is None,
            r.level is None,
            opt_texts(r.modes) == opt_texts(loc.modes),
            r.importance == loc.importance,
    {
        let tokens = convert_tokens(&loc.tokens);
        let type_ = match &loc.type_ {
            Some(t) => t.clone(),
            None => String::from_str("PLACE"),
        };
        Match {
            type_,
            name: loc.name.clone(),
            id: loc.place_id.clone(),
            lat: loc.lat,
            lon: loc.lon,
            tokens,
            areas: clone_areas(&loc.areas),
            score: loc.score,
            category: clone_opt_text(&loc.category),
            street: clone_opt_text(&loc.street),
            house_number: clone_opt_text(&loc.house_number),
            country: clone_opt_text(&loc.country),
            zip: clone_opt_text(&loc.zip),
            tz: None,
            level: None,
            modes: clone_opt_texts(&loc.modes),
            importance: loc.importance,
        }
    }
}

} // verus!
