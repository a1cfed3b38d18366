//! Construction of the one-line JSON commands of the subprocess protocol.
//!
//! The wire format is this system's own: one JSON object per line, with a
//! `cmd` tag and the command's parameters.  String parameters are escaped
//! here so that the emitted line is always well-formed JSON.

use vstd::prelude::*;
use crate::text::{dec_int, digit_char, i32_to_string, is_number_token, push_char};

verus! {

/// The escape sequence for one character inside a JSON string literal:
/// quote and backslash are escaped, control characters become a `\u00XX`
/// sequence, and everything else stands for itself.
pub open spec fn esc_char(c: char) -> Seq<char> {
    if c == '"' {
        seq!['\\', '"']
    } else if c == '\\' {
        seq!['\\', '\\']
    } else if (c as u32) < 32 {
        seq!['\\', 'u', '0', '0', hex_char((c as u32 / 16) as int), hex_char((c as u32 % 16) as int)]
    } else {
        seq![c]
    }
}

/// Lower-case hexadecimal digit.
pub open spec fn hex_char(d: int) -> char
    recommends
        0 <= d < 16,
{
    if d < 10 {
        digit_char(d)
    } else {
        (((87 + d) as u8) as char)
    }
}

/// A whole string escaped for inclusion inside a JSON string literal.
pub open spec fn json_escaped(s: Seq<char>) -> Seq<char>
    decreases s.len(),
{
    if s.len() == 0 {
        Seq::empty()
    } else {
        json_escaped(s.drop_last()) + esc_char(s.last())
    }
}

fn hex_char_exec(d: u32) -> (r: char)
    requires
        d < 16,
    ensures
        r == hex_char(d as int),
{
    if d < 10 {
        ((48 + d) as u8) as char
    } else {
        ((87 + d) as u8) as char
    }
}

/// Append the escaped form of `c` to `out`.
fn push_escaped(out: &mut String, c: char)
    ensures
        final(out)@ == old(out)@ + esc_char(c),
{
    if c == '"' {
        out.append("\\\"");
        assert(("\\\""@ =~= esc_char(c))) by {
            reveal_strlit("\\\"");
        }
    } else if c == '\\' {
        out.append("\\\\");
        assert(("\\\\"@ =~= esc_char(c))) by {
            reveal_strlit("\\\\");
        }
    } else if (c as u32) < 32 {
        let u = c as u32;
        out.append("\\u00");
        push_char(out, hex_char_exec(u / 16));
        push_char(out, hex_char_exec(u % 16));
        assert(("\\u00"@ + seq![hex_char((c as u32 / 16) as int)] + seq![
            hex_char((c as u32 % 16) as int),
        ] =~= esc_char(c))) by {
            reveal_strlit("\\u00");
        }
    } else {
        push_char(out, c);
        assert(seq![c] =~= esc_char(c));
    }
}

/// Append the JSON-escaped form of the whole string `s` to `out`.
pub(crate) fn append_escaped(out: &mut String, s: &str)
    ensures
        final(out)@ == old(out)@ + json_escaped(s@),
{
    let len = s.unicode_len();
    let mut i: usize = 0;
    while i < len
        invariant
            i <= len,
            len == s@.len(),
            out@ == old(out)@ + json_escaped(s@.subrange(0, i as int)),
        decreases len - i,
    {
        let c = s.get_char(i);
        push_escaped(out, c);
        proof {
            let pre = s@.subrange(0, i as int);
            let ext = s@.subrange(0, i + 1);
            assert(ext.drop_last() =~= pre);
            assert(ext.last() == c);
        }
        i += 1;
    }
    assert(s@.subrange(0, s@.len() as int) =~= s@);
}

/// The geocode command line for a query string.
pub open spec fn geocode_command_text(q: Seq<char>) -> Seq<char> {
    "{\"cmd\":\"geocode\",\"query\":\""@ + json_escaped(q) + "\"}"@
}

/// Build the geocode command.
pub fn geocode_command(query: &str) -> (r: String)
    ensures
        r@ == geocode_command_text(query@),
{
    let mut s = String::new();
    s.append("{\"cmd\":\"geocode\",\"query\":\"");
    append_escaped(&mut s, query);
    s.append("\"}");
    s
}

/// The reverse-geocode command line for validated coordinate tokens.
pub open spec fn reverse_geocode_command_text(lat: Seq<char>, lon: Seq<char>) -> Seq<char> {
    "{\"cmd\":\"reverse_geocode\",\"lat\":"@ + lat + ",\"lon\":"@ + lon + "}"@
}

/// Build the reverse-geocode command.  The coordinates must already have
/// been validated as numeric tokens, so they embed verbatim.
pub fn reverse_geocode_command(lat: &str, lon: &str) -> (r: String)
    requires
        is_number_token(lat@),
        is_number_token(lon@),
    ensures
        r@ == reverse_geocode_command_text(lat@, lon@),
{
    let mut s = String::new();
    s.append("{\"cmd\":\"reverse_geocode\",\"lat\":");
    s.append(lat);
    s.append(",\"lon\":");
    s.append(lon);
    s.append("}");
    s
}

/// The route-planning command line for validated coordinate tokens.
pub open spec fn plan_route_command_text(
    from_lat: Seq<char>,
    from_lon: Seq<char>,
    to_lat: Seq<char>,
    to_lon: Seq<char>,
) -> Seq<char> {
    "{\"cmd\":\"plan_route\",\"from_lat\":"@ + from_lat + ",\"from_lon\":"@ + from_lon
        + ",\"to_lat\":"@ + to_lat + ",\"to_lon\":"@ + to_lon + "}"@
}

/// Build the route-planning command from validated coordinate tokens.
pub fn plan_route_command(from_lat: &str, from_lon: &str, to_lat: &str, to_lon: &str) -> (r:
    String)
    requires
        is_number_token(from_lat@),
        is_number_token(from_lon@),
        is_number_token(to_lat@),
        is_number_token(to_lon@),
    ensures
        r@ == plan_route_command_text(from_lat@, from_lon@, to_lat@, to_lon@),
{
    let mut s = String::new();
    s.append("{\"cmd\":\"plan_route\",\"from_lat\":");
    s.append(from_lat);
    s.append(",\"from_lon\":");
    s.append(from_lon);
    s.append(",\"to_lat\":");
    s.append(to_lat);
    s.append(",\"to_lon\":");
    s.append(to_lon);
    s.append("}");
    s
}

/// The tile command line for tile coordinates.
pub open spec fn tile_command_text(z: int, x: int, y: int) -> Seq<char> {
    "{\"cmd\":\"get_tile\",\"z\":"@ + dec_int(z) + ",\"x\":"@ + dec_int(x) + ",\"y\":"@ + dec_int(
        y,
    ) + "}"@
}

/// Build the tile command.
pub fn tile_command(z: i32, x: i32, y: i32) -> (r: String)
    ensures
        r@ == tile_command_text(z as int, x as int, y as int),
{
    let mut s = String::new();
    s.append("{\"cmd\":\"get_tile\",\"z\":");
    let zs = i32_to_string(z);
    s.append(zs.as_str());
    s.append(",\"x\":");
    let xs = i32_to_string(x);
    s.append(xs.as_str());
    s.append(",\"y\":");
    let ys = i32_to_string(y);
    s.append(ys.as_str());
    s.append("}");
    s
}

/// The glyph command line for an asset path.
pub open spec fn glyph_command_text(p: Seq<char>) -> Seq<char> {
    "{\"cmd\":\"get_glyph\",\"path\":\""@ + json_escaped(p) + "\"}"@
}

/// Build the glyph command.
pub fn glyph_command(path: &str) -> (r: String)
    ensures
        r@ == glyph_command_text(path@),
{
    let mut s = String::new();
    s.append("{\"cmd\":\"get_glyph\",\"path\":\"");
    append_escaped(&mut s, path);
    s.append("\"}");
    s
}

/// The generic GET command line for a passthrough path with its query.
pub open spec fn api_get_command_text(p: Seq<char>) -> Seq<char> {
    "{\"cmd\":\"api_get\",\"path\":\""@ + json_escaped(p) + "\"}"@
}

/// Build the generic GET command.
pub fn api_get_command(path_and_query: &str) -> (r: String)
    ensures
        r@ == api_get_command_text(path_and_query@),
{
    let mut s = String::new();
    s.append("{\"cmd\":\"api_get\",\"path\":\"");
    append_escaped(&mut s, path_and_query);
    s.append("\"}");
    s
}

} // verus!
