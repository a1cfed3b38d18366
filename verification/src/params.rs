//! Query-string parameters: splitting on `&`, keys and percent-decoded
//! values, with the last occurrence of a key winning.

use vstd::prelude::*;
use crate::text::str_eq;

verus! {

/// What percent-decoding yields for a text, or `None` where the decoded
/// bytes are not valid UTF-8.
pub uninterp spec fn url_decoded_of(s: Seq<char>) -> Option<Seq<char>>;

/// Relies on `urlencoding::decode`: the result depends on the text alone,
/// and a text without a percent sign decodes to itself.
#[verifier::external_body]
pub(crate) fn url_decode(s: &str) -> (r: Option<String>)
    ensures
        r matches Some(d) ==> (url_decoded_of(s@) == Some(d@) && ((forall|i: int|
            0 <= i < s@.len() ==> s@[i] != '%') ==> d@ == s@)),
        r is None ==> (url_decoded_of(s@) is None && (exists|i: int|
            0 <= i < s@.len() && s@[i] == '%')),
{
    match urlencoding::decode(s) {
        Ok(c) => Some(c.into_owned()),
        Err(_) => None,
    }
}

/// The first position at or after `i` holding `sep`, or the length where
/// there is none.
pub open spec fn next_pos(s: Seq<char>, i: int, sep: char) -> int
    recommends
        0 <= i <= s.len(),
    decreases s.len() - i,
{
    if i < 0 || i >= s.len() {
        s.len() as int
    } else if s[i] == sep {
        i
    } else {
        next_pos(s, i + 1, sep)
    }
}

proof fn lemma_next_pos_bounds(s: Seq<char>, i: int, sep: char)
    requires
        0 <= i <= s.len(),
    ensures
        i <= next_pos(s, i, sep) <= s.len(),
        next_pos(s, i, sep) < s.len() ==> s[next_pos(s, i, sep)] == sep,
        forall|k: int| i <= k < next_pos(s, i, sep) ==> s[k] != sep,
    decreases s.len() - i,
{
    if i < s.len() && s[i] != sep {
        lemma_next_pos_bounds(s, i + 1, sep);
    }
}

/// The key of one `key=value` piece: everything before the first `=`.
pub open spec fn piece_key(p: Seq<char>) -> Seq<char> {
    p.subrange(0, next_pos(p, 0, '='))
}

/// The raw (still encoded) value of one piece: everything after the first
/// `=`, or empty where there is none.
pub open spec fn piece_raw_value(p: Seq<char>) -> Seq<char> {
    if next_pos(p, 0, '=') < p.len() {
        p.subrange(next_pos(p, 0, '=') + 1, p.len() as int)
    } else {
        Seq::empty()
    }
}

/// The decoded value of one piece; a value whose decoding fails reads as
/// empty.
pub open spec fn piece_value(p: Seq<char>) -> Seq<char> {
    match url_decoded_of(piece_raw_value(p)) {
        Some(d) => d,
        None => Seq::empty(),
    }
}

/// The value of `key` among the pieces of `q` starting at `i`: empty
/// pieces are skipped, and a later occurrence of the key overrides an
/// earlier one.
pub open spec fn param_from(q: Seq<char>, i: int, key: Seq<char>) -> Option<Seq<char>>
    recommends
        0 <= i <= q.len(),
    decreases q.len() - i,
{
    let j = if next_pos(q, i, '&') < i {
        i
    } else {
        next_pos(q, i, '&')
    };
    let piece = q.subrange(i, j);
    let here: Option<Seq<char>> = if piece.len() > 0 && piece_key(piece) == key {
        Some(piece_value(piece))
    } else {
        None
    };
    if j >= q.len() {
        here
    } else {
        match param_from(q, j + 1, key) {
            Some(v) => Some(v),
            None => here,
        }
    }
}

/// The value the query string assigns to `key`, if any.
pub open spec fn param_value(q: Seq<char>, key: Seq<char>) -> Option<Seq<char>> {
    param_from(q, 0, key)
}

pub(crate) fn find_pos(s: &str, len: usize, i: usize, sep: char) -> (r: usize)
    requires
        len == s@.len(),
        i <= len,
    ensures
        r == next_pos(s@, i as int, sep),
        i <= r <= len,
    decreases len - i,
{
    proof {
        lemma_next_pos_bounds(s@, i as int, sep);
    }
    if i >= len {
        len
    } else if s.get_char(i) == sep {
        i
    } else {
        find_pos(s, len, i + 1, sep)
    }
}

fn param_lookup_from(q: &str, len: usize, i: usize, key: &str) -> (r: Option<String>)
    requires
        len == q@.len(),
        i <= len,
    ensures
        (r matches Some(v) ==> param_from(q@, i as int, key@) matches Some(w) && v@ == w),
        r is None ==> param_from(q@, i as int, key@) is None,
    decreases len - i,
{
    let j = find_pos(q, len, i, '&');
    proof {
        lemma_next_pos_bounds(q@, i as int, '&');
    }
    let piece = q.substring_char(i, j);
    let plen = piece.unicode_len();
    let here: Option<String> = if plen > 0 {
        let e = find_pos(piece, plen, 0, '=');
        let k = piece.substring_char(0, e);
        if str_eq(k, key) {
            let raw = if e < plen {
                piece.substring_char(e + 1, plen)
            } else {
                ""
            };
            proof {
                if next_pos(piece@, 0, '=') >= piece@.len() {
                    assert(""@ =~= piece_raw_value(piece@)) by {
                        reveal_strlit("");
                    }
                }
            }
            match url_decode(raw) {
                Some(d) => Some(d),
                None => Some(String::new()),
            }
        } else {
            None
        }
    } else {
        None
    };
    if j >= len {
        here
    } else {
        let rest = param_lookup_from(q, len, j + 1, key);
        match rest {
            Some(v) => Some(v),
            None => here,
        }
    }
}

/// Look one key up in a query string: pieces are split on `&`, the key is
/// what stands before the first `=`, the value is percent-decoded, and a
/// later occurrence of the key overrides an earlier one.
pub fn query_param(query: &str, key: &str) -> (r: Option<String>)
    ensures
        (r matches Some(v) ==> param_value(query@, key@) matches Some(w) && v@ == w),
        r is None ==> param_value(query@, key@) is None,
{
    let len = query.unicode_len();
    param_lookup_from(query, len, 0, key)
}

} // verus!
