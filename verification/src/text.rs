//! Verified helpers over character sequences: comparison, prefix/suffix and
//! substring tests, ASCII case folding, and decimal formatting/parsing.

use vstd::prelude::*;

verus! {

/// ASCII lower-casing of one character; anything outside `A..Z` is unchanged.
pub open spec fn lower_char(c: char) -> char {
    if 65 <= c as u32 && c as u32 <= 90 {
        (((c as u32 + 32) as u8) as char)
    } else {
        c
    }
}

/// ASCII lower-casing of a whole sequence.
pub open spec fn lower(s: Seq<char>) -> Seq<char> {
    s.map_values(|c: char| lower_char(c))
}

/// `p` is a prefix of `s`.
pub open spec fn starts_with(s: Seq<char>, p: Seq<char>) -> bool {
    p.len() <= s.len() && s.subrange(0, p.len() as int) == p
}

/// `p` is a suffix of `s`.
pub open spec fn ends_with(s: Seq<char>, p: Seq<char>) -> bool {
    p.len() <= s.len() && s.subrange(s.len() - p.len(), s.len() as int) == p
}

/// `n` occurs somewhere inside `h`.
pub open spec fn contains_seq(h: Seq<char>, n: Seq<char>) -> bool {
    exists|i: int| 0 <= i && i + n.len() <= h.len() && #[trigger] h.subrange(i, i + n.len()) == n
}

fn lower_char_exec(c: char) -> (r: char)
    ensures
        r == lower_char(c),
{
    let u = c as u32;
    if 65 <= u && u <= 90 {
        ((u + 32) as u8) as char
    } else {
        c
    }
}

/// Relies on `String::push`: appends one character at the end of the string.
#[verifier::external_body]
pub(crate) fn push_char(s: &mut String, c: char)
    ensures
        final(s)@ == old(s)@ + seq![c],
{
    s.push(c);
}

/// ASCII lower-casing of a string.
pub fn to_ascii_lower(s: &str) -> (r: String)
    ensures
        r@ == lower(s@),
{
    let len = s.unicode_len();
    let mut out = String::new();
    let mut i: usize = 0;
    while i < len
        invariant
            i <= len,
            len == s@.len(),
            out@.len() == i,
            forall|j: int| 0 <= j < i ==> out@[j] == lower_char(s@[j]),
        decreases len - i,
    {
        let c = lower_char_exec(s.get_char(i));
        push_char(&mut out, c);
        i += 1;
    }
    assert(out@ =~= lower(s@));
    out
}

/// Character-wise string equality.
pub fn str_eq(a: &str, b: &str) -> (r: bool)
    ensures
        r == (a@ == b@),
{
    let alen = a.unicode_len();
    let blen = b.unicode_len();
    if alen != blen {
        return false;
    }
    let mut i: usize = 0;
    while i < alen
        invariant
            i <= alen,
            alen == a@.len(),
            alen == b@.len(),
            forall|j: int| 0 <= j < i ==> a@[j] == b@[j],
        decreases alen - i,
    {
        if a.get_char(i) != b.get_char(i) {
            return false;
        }
        i += 1;
    }
    assert(a@ =~= b@);
    true
}

/// Prefix test.
pub fn starts_with_str(s: &str, p: &str) -> (r: bool)
    ensures
        r == starts_with(s@, p@),
{
    let slen = s.unicode_len();
    let plen = p.unicode_len();
    if plen > slen {
        return false;
    }
    let mut i: usize = 0;
    while i < plen
        invariant
            i <= plen,
            plen <= slen,
            slen == s@.len(),
            plen == p@.len(),
            forall|j: int| 0 <= j < i ==> s@[j] == p@[j],
        decreases plen - i,
    {
        if s.get_char(i) != p.get_char(i) {
            assert(s@.subrange(0, p@.len() as int)[i as int] != p@[i as int]);
            return false;
        }
        i += 1;
    }
    assert(s@.subrange(0, p@.len() as int) =~= p@);
    true
}

/// Suffix test.
pub fn ends_with_str(s: &str, p: &str) -> (r: bool)
    ensures
        r == ends_with(s@, p@),
{
    let slen = s.unicode_len();
    let plen = p.unicode_len();
    if plen > slen {
        return false;
    }
    let off = slen - plen;
    let mut i: usize = 0;
    while i < plen
        invariant
            i <= plen,
            plen <= slen,
            off == slen - plen,
            slen == s@.len(),
            plen == p@.len(),
            forall|j: int| 0 <= j < i ==> s@[off + j] == p@[j],
        decreases plen - i,
    {
        if s.get_char(off + i) != p.get_char(i) {
            assert(s@.subrange(s@.len() - p@.len(), s@.len() as int)[i as int] != p@[i as int]);
            return false;
        }
        i += 1;
    }
    assert(s@.subrange(s@.len() - p@.len(), s@.len() as int) =~= p@);
    true
}

/// Does `n` occur at offset `at` of `h`?
fn matches_at(h: &str, hlen: usize, n: &str, nlen: usize, at: usize) -> (r: bool)
    requires
        hlen == h@.len(),
        nlen == n@.len(),
        at + nlen <= hlen,
    ensures
        r == (h@.subrange(at as int, at + n@.len()) == n@),
{
    let mut i: usize = 0;
    while i < nlen
        invariant
            i <= nlen,
            hlen == h@.len(),
            nlen == n@.len(),
            at + nlen <= hlen,
            forall|j: int| 0 <= j < i ==> h@[at + j] == n@[j],
        decreases nlen - i,
    {
        if h.get_char(at + i) != n.get_char(i) {
            assert(h@.subrange(at as int, at + n@.len())[i as int] != n@[i as int]);
            return false;
        }
        i += 1;
    }
    assert(h@.subrange(at as int, at + n@.len()) =~= n@);
    true
}

/// Substring test.
pub fn contains_str(h: &str, n: &str) -> (r: bool)
    ensures
        r == contains_seq(h@, n@),
{
    let hlen = h.unicode_len();
    let nlen = n.unicode_len();
    if nlen > hlen {
        return false;
    }
    if nlen == 0 {
        assert(h@.subrange(0, 0 + n@.len() as int) =~= n@);
        return true;
    }
    let mut at: usize = 0;
    while at <= hlen - nlen
        invariant
            1 <= nlen <= hlen,
            hlen == h@.len(),
            nlen == n@.len(),
            at <= hlen - nlen + 1,
            forall|i: int| 0 <= i < at ==> #[trigger] h@.subrange(i, i + n@.len()) != n@,
        decreases hlen - nlen - at + 1,
    {
        if matches_at(h, hlen, n, nlen, at) {
            return true;
        }
        at += 1;
    }
    false
}

// ---------------------------------------------------------------------------
// Decimal formatting
// ---------------------------------------------------------------------------

/// The character for one decimal digit value.
pub open spec fn digit_char(d: int) -> char
    recommends
        0 <= d < 10,
{
    (((48 + d) as u8) as char)
}

/// Decimal digits of a natural number, most significant first.
pub open spec fn dec_digits(n: nat) -> Seq<char>
    decreases n,
{
    if n < 10 {
        seq![digit_char(n as int)]
    } else {
        dec_digits(n / 10).push(digit_char((n % 10) as int))
    }
}

/// Decimal text of an integer: a minus sign for negative values, then digits.
pub open spec fn dec_int(n: int) -> Seq<char> {
    if n < 0 {
        seq!['-'] + dec_digits((-n) as nat)
    } else {
        dec_digits(n as nat)
    }
}

fn digit_char_exec(d: u8) -> (r: char)
    requires
        d < 10,
    ensures
        r == digit_char(d as int),
{
    (48 + d) as char
}

/// Decimal rendering of an unsigned number.
pub fn u64_to_string(n: u64) -> (r: String)
    ensures
        r@ == dec_digits(n as nat),
    decreases n,
{
    if n < 10 {
        let mut s = String::new();
        push_char(&mut s, digit_char_exec(n as u8));
        s
    } else {
        let mut s = u64_to_string(n / 10);
        push_char(&mut s, digit_char_exec((n % 10) as u8));
        s
    }
}

/// Decimal rendering of a signed number.
pub fn i32_to_string(n: i32) -> (r: String)
    ensures
        r@ == dec_int(n as int),
{
    if n < 0 {
        let mag: u64 = (-(n as i64)) as u64;
        let mut s = String::new();
        push_char(&mut s, '-');
        let digits = u64_to_string(mag);
        s.append(digits.as_str());
        s
    } else {
        u64_to_string(n as u64)
    }
}

// ---------------------------------------------------------------------------
// Decimal parsing
// ---------------------------------------------------------------------------

/// A decimal digit.
pub open spec fn is_digit(c: char) -> bool {
    48 <= c as u32 && c as u32 <= 57
}

/// Value of a decimal digit.
pub open spec fn digit_val(c: char) -> int {
    c as u32 - 48
}

/// All characters are decimal digits.
pub open spec fn all_digits(s: Seq<char>) -> bool {
    forall|i: int| 0 <= i < s.len() ==> is_digit(#[trigger] s[i])
}

/// Value of a digit string, most significant first.
pub open spec fn digits_val(s: Seq<char>) -> int
    decreases s.len(),
{
    if s.len() == 0 {
        0
    } else {
        digits_val(s.drop_last()) * 10 + digit_val(s.last())
    }
}

/// What `str::parse::<i32>` accepts: an optional sign followed by at least
/// one digit, with the value in range.
pub open spec fn parse_i32_spec(s: Seq<char>) -> Option<i32> {
    let mag = if s.len() > 0 && (s[0] == '-' || s[0] == '+') {
        s.subrange(1, s.len() as int)
    } else {
        s
    };
    let neg = s.len() > 0 && s[0] == '-';
    if mag.len() == 0 || !all_digits(mag) {
        None
    } else if !neg && digits_val(mag) <= 0x7fff_ffff {
        Some(digits_val(mag) as i32)
    } else if neg && digits_val(mag) <= 0x8000_0000 {
        Some((-digits_val(mag)) as i32)
    } else {
        None
    }
}

proof fn lemma_digits_val_nonneg(s: Seq<char>)
    requires
        all_digits(s),
    ensures
        digits_val(s) >= 0,
    decreases s.len(),
{
    if s.len() > 0 {
        assert(all_digits(s.drop_last()));
        lemma_digits_val_nonneg(s.drop_last());
    }
}

fn is_digit_exec(c: char) -> (r: bool)
    ensures
        r == is_digit(c),
{
    let u = c as u32;
    48 <= u && u <= 57
}

/// Parse a signed 32-bit decimal number, as `str::parse::<i32>` would.
pub fn parse_i32(s: &str) -> (r: Option<i32>)
    ensures
        r == parse_i32_spec(s@),
{
    let len = s.unicode_len();
    let mut start: usize = 0;
    let mut neg = false;
    if len > 0 {
        let c0 = s.get_char(0);
        if c0 == '-' {
            neg = true;
            start = 1;
        } else if c0 == '+' {
            start = 1;
        }
    }
    let ghost mag = if start == 1 { s@.subrange(1, s@.len() as int) } else { s@ };
    if start >= len {
        assert(mag.len() == 0);
        return None;
    }
    let mut i: usize = start;
    let mut acc: u64 = 0;
    let mut big = false;
    while i < len
        invariant
            start <= i <= len,
            len == s@.len(),
            start <= 1,
            (start == 1) == (len > 0 && (s@[0] == '-' || s@[0] == '+')),
            neg == (len > 0 && s@[0] == '-'),
            mag == (if start == 1 { s@.subrange(1, s@.len() as int) } else { s@ }),
            mag.len() == len - start,
            forall|j: int| 0 <= j < mag.len() ==> mag[j] == s@[j + start],
            all_digits(mag.subrange(0, i - start)),
            !big ==> acc == digits_val(mag.subrange(0, i - start)),
            !big ==> acc <= 0xffff_ffffu64 * 10 + 9,
            big ==> digits_val(mag.subrange(0, i - start)) > 0xffff_ffff,
            big ==> all_digits(mag.subrange(0, i - start)),
        decreases len - i,
    {
        let c = s.get_char(i);
        if !is_digit_exec(c) {
            assert(!all_digits(mag)) by {
                assert(mag[i - start] == c);
            }
            return None;
        }
        let d: u64 = (c as u32 - 48) as u64;
        let ghost pre = mag.subrange(0, i - start);
        let ghost ext = mag.subrange(0, i + 1 - start);
        proof {
            assert(ext.drop_last() =~= pre);
            assert(ext.last() == mag[i - start]);
            lemma_digits_val_nonneg(pre);
        }
        if big || acc > 0xffff_ffff {
            proof {
                if !big {
                    assert(digits_val(ext) == acc * 10 + digit_val(mag[i - start]));
                }
            }
            big = true;
        } else {
            acc = acc * 10 + d;
        }
        i += 1;
    }
    assert(mag.subrange(0, i - start) =~= mag);
    if big {
        return None;
    }
    if !neg {
        if acc <= 0x7fff_ffff {
            Some(acc as i32)
        } else {
            None
        }
    } else {
        if acc <= 0x8000_0000 {
            let v: i64 = -(acc as i64);
            Some(v as i32)
        } else {
            None
        }
    }
}

// ---------------------------------------------------------------------------
// Numeric tokens (JSON-embeddable decimal numbers)
// ---------------------------------------------------------------------------

/// One step of the numeric-token recogniser.  States: 0 start, 1 after the
/// sign, 2 integer digits (accepting), 3 after the decimal point, 4 fraction
/// digits (accepting), 5 after the exponent mark, 6 after the exponent sign,
/// 7 exponent digits (accepting), 8 reject.
pub open spec fn num_next(st: u8, c: char) -> u8 {
    if st == 0 {
        if c == '-' { 1 } else if is_digit(c) { 2 } else { 8 }
    } else if st == 1 {
        if is_digit(c) { 2 } else { 8 }
    } else if st == 2 {
        if is_digit(c) { 2 } else if c == '.' { 3 } else if c == 'e' || c == 'E' { 5 } else { 8 }
    } else if st == 3 {
        if is_digit(c) { 4 } else { 8 }
    } else if st == 4 {
        if is_digit(c) { 4 } else if c == 'e' || c == 'E' { 5 } else { 8 }
    } else if st == 5 {
        if c == '+' || c == '-' { 6 } else if is_digit(c) { 7 } else { 8 }
    } else if st == 6 {
        if is_digit(c) { 7 } else { 8 }
    } else if st == 7 {
        if is_digit(c) { 7 } else { 8 }
    } else {
        8
    }
}

/// The recogniser's state after reading the first `i` characters.
pub open spec fn num_run(s: Seq<char>, i: int) -> u8
    recommends
        0 <= i <= s.len(),
    decreases i,
{
    if i <= 0 {
        0
    } else {
        num_next(num_run(s, i - 1), s[i - 1])
    }
}

/// `s` is a decimal number usable verbatim inside a JSON command: an
/// optional minus sign, digits, an optional fraction and an optional
/// exponent.
pub open spec fn is_number_token(s: Seq<char>) -> bool {
    let st = num_run(s, s.len() as int);
    st == 2 || st == 4 || st == 7
}

fn num_next_exec(st: u8, c: char) -> (r: u8)
    ensures
        r == num_next(st, c),
{
    if st == 0 {
        if c == '-' { 1 } else if is_digit_exec(c) { 2 } else { 8 }
    } else if st == 1 {
        if is_digit_exec(c) { 2 } else { 8 }
    } else if st == 2 {
        if is_digit_exec(c) { 2 } else if c == '.' { 3 } else if c == 'e' || c == 'E' { 5 } else { 8 }
    } else if st == 3 {
        if is_digit_exec(c) { 4 } else { 8 }
    } else if st == 4 {
        if is_digit_exec(c) { 4 } else if c == 'e' || c == 'E' { 5 } else { 8 }
    } else if st == 5 {
        if c == '+' || c == '-' { 6 } else if is_digit_exec(c) { 7 } else { 8 }
    } else if st == 6 {
        if is_digit_exec(c) { 7 } else { 8 }
    } else if st == 7 {
        if is_digit_exec(c) { 7 } else { 8 }
    } else {
        8
    }
}

/// Check that a string is a decimal numeric token.
pub fn check_number_token(s: &str) -> (r: bool)
    ensures
        r == is_number_token(s@),
{
    let len = s.unicode_len();
    let mut st: u8 = 0;
    let mut i: usize = 0;
    while i < len
        invariant
            i <= len,
            len == s@.len(),
            st == num_run(s@, i as int),
        decreases len - i,
    {
        st = num_next_exec(st, s.get_char(i));
        i += 1;
    }
    st == 2 || st == 4 || st == 7
}

} // verus!
