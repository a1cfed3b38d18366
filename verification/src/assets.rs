//! Binary asset post-processing: base64 decoding of tile and glyph
//! payloads and the zlib inflation step applied to vector tiles.

use vstd::prelude::*;
use crate::errors::IpcError;

verus! {

/// What base64's standard-alphabet decode yields for a text, or `None`
/// where the text is not valid base64.
pub uninterp spec fn b64_decoded(s: Seq<char>) -> Option<Seq<u8>>;

/// Relies on base64's `Engine::decode` with the `STANDARD` engine: the
/// result depends on the input text alone.
#[verifier::external_body]
pub(crate) fn b64_decode(s: &str) -> (r: Option<Vec<u8>>)
    ensures
        r matches Some(v) ==> b64_decoded(s@) == Some(v@),
        r is None ==> b64_decoded(s@) is None,
{
    base64::Engine::decode(&base64::engine::general_purpose::STANDARD, s).ok()
}

/// What inflating a zlib stream yields, or `None` where the bytes are not
/// a complete zlib stream.
pub uninterp spec fn zlib_inflated(b: Seq<u8>) -> Option<Seq<u8>>;

/// Relies on flate2's `ZlibDecoder` read to the end of the stream: the
/// result depends on the input bytes alone.
#[verifier::external_body]
pub(crate) fn zlib_inflate(data: &Vec<u8>) -> (r: Option<Vec<u8>>)
    ensures
        r matches Some(v) ==> zlib_inflated(data@) == Some(v@),
        r is None ==> zlib_inflated(data@) is None,
{
    let mut decoder = flate2::read::ZlibDecoder::new(&data[..]);
    let mut out = Vec::new();
    match std::io::Read::read_to_end(&mut decoder, &mut out) {
        Ok(_) => Some(out),
        Err(_) => None,
    }
}

/// The bytes a tile payload ends up with: a payload that starts with the
/// zlib header byte is inflated, and a successful non-empty inflation
/// replaces the raw bytes; in every other case — no header, inflation
/// failure, or empty output — the raw bytes pass through unchanged.
pub open spec fn inflated_tile_bytes(data: Seq<u8>) -> Seq<u8> {
    if data.len() < 2 || data[0] != 0x78 {
        data
    } else {
        match zlib_inflated(data) {
            Some(v) => if v.len() > 0 {
                v
            } else {
                data
            },
            None => data,
        }
    }
}

/// Inflate a tile payload where it carries a zlib header, falling back to
/// the raw bytes on any failure.
pub fn maybe_inflate_zlib(data: &Vec<u8>) -> (r: Vec<u8>)
    ensures
        r@ == inflated_tile_bytes(data@),
{
    if data.len() < 2 || *data.get(0).unwrap() != 0x78 {
        return data.clone();
    }
    match zlib_inflate(data) {
        Some(v) => {
            if v.len() > 0 {
                v
            } else {
                data.clone()
            }
        },
        None => data.clone(),
    }
}

/// The body of a glyph response: the decoded payload where the backend
/// found the glyph and its base64 text decodes, and an empty body in every
/// other case.
pub open spec fn glyph_body_spec(fetch: Result<Option<String>, IpcError>) -> Seq<u8> {
    match fetch {
        Ok(Some(s)) => match b64_decoded(s@) {
            Some(b) => b,
            None => Seq::empty(),
        },
        _ => Seq::empty(),
    }
}

/// Decode a glyph fetch outcome into response bytes; every failure
/// degrades to an empty body.
pub fn glyph_response_bytes(fetch: &Result<Option<String>, IpcError>) -> (r: Vec<u8>)
    ensures
        r@ == glyph_body_spec(*fetch),
{
    match fetch {
        Ok(Some(s)) => {
            match b64_decode(s.as_str()) {
                Some(v) => v,
                None => Vec::new(),
            }
        },
        _ => Vec::new(),
    }
}

/// The body of a tile response: the decoded payload, inflated where it
/// carries a zlib header, and an empty body in every other case.
pub open spec fn tile_body_spec(fetch: Result<Option<String>, IpcError>) -> Seq<u8> {
    match fetch {
        Ok(Some(s)) => match b64_decoded(s@) {
            Some(b) => inflated_tile_bytes(b),
            None => Seq::empty(),
        },
        _ => Seq::empty(),
    }
}

/// Decode a tile fetch outcome into response bytes; every failure degrades
/// to an empty body.
pub fn tile_response_bytes(fetch: &Result<Option<String>, IpcError>) -> (r: Vec<u8>)
    ensures
        r@ == tile_body_spec(*fetch),
{
    match fetch {
        Ok(Some(s)) => {
            match b64_decode(s.as_str()) {
                Some(v) => maybe_inflate_zlib(&v),
                None => Vec::new(),
            }
        },
        _ => Vec::new(),
    }
}

} // verus!
