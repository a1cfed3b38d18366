//! The backend's JSON responses, seen through a small trusted surface over
//! `serde_json`, and the verified interpretation of the response envelope.
//!
//! A parsed document is opaque; the contracts speak of it through named
//! projections: its top-level string fields, its top-level boolean
//! fields, and whether it is JSON `null`.

use vstd::prelude::*;
use crate::errors::IpcError;
use crate::text::str_eq;

verus! {

#[verifier::external_type_specification]
#[verifier::external_body]
pub struct ExJsonValue(serde_json::Value);

/// The top-level fields of a JSON document whose values are strings.
pub uninterp spec fn json_str_fields(v: serde_json::Value) -> Map<Seq<char>, Seq<char>>;

/// The top-level fields of a JSON document whose values are booleans.
pub uninterp spec fn json_bool_fields(v: serde_json::Value) -> Map<Seq<char>, bool>;

/// The bytes `serde_json::to_vec` writes for a JSON document.
pub uninterp spec fn json_serialized(v: serde_json::Value) -> Seq<u8>;

/// The outcome of parsing a text as JSON: `None` where it parses, and the
/// parser's message where it does not.
pub uninterp spec fn json_parse_err(s: Seq<char>) -> Option<Seq<char>>;

/// The document a text parses to, where it parses at all.
pub uninterp spec fn json_doc_of(s: Seq<char>) -> serde_json::Value;

/// Relies on `serde_json::from_str`: parses one response line as a JSON
/// document; whether it parses, the document, and the failure message
/// when it does not parse all depend on the text alone.
#[verifier::external_body]
pub(crate) fn parse_json_line(s: &str) -> (r: Result<serde_json::Value, String>)
    ensures
        r matches Ok(v) ==> (json_parse_err(s@) is None && v == json_doc_of(s@)),
        r matches Err(d) ==> (json_parse_err(s@) matches Some(t) && d@ == t),
{
    match serde_json::from_str::<serde_json::Value>(s) {
        Ok(v) => Ok(v),
        Err(e) => Err(e.to_string()),
    }
}

/// Relies on `serde_json::Value::get` and `Value::as_str`: reads a
/// top-level field holding a string.
#[verifier::external_body]
pub(crate) fn get_str_field(v: &serde_json::Value, key: &str) -> (r: Option<String>)
    ensures
        r is Some <==> json_str_fields(*v).contains_key(key@),
        r matches Some(s) ==> s@ == json_str_fields(*v)[key@],
{
    match v.get(key) {
        Some(x) => x.as_str().map(|s| s.to_string()),
        None => None,
    }
}

/// Relies on `serde_json::Value::get` and `Value::as_bool`: reads a
/// top-level field holding a boolean.
#[verifier::external_body]
pub(crate) fn get_bool_field(v: &serde_json::Value, key: &str) -> (r: Option<bool>)
    ensures
        r is Some <==> json_bool_fields(*v).contains_key(key@),
        r matches Some(b) ==> b == json_bool_fields(*v)[key@],
{
    match v.get(key) {
        Some(x) => x.as_bool(),
        None => None,
    }
}

/// The document a top-level field holds; a missing field reads as JSON
/// `null`.
pub uninterp spec fn json_field_of(v: serde_json::Value, key: Seq<char>) -> serde_json::Value;

/// Relies on `serde_json::Value::get` and `Value::clone`: reads a top-level
/// field as an opaque document; a missing field reads as JSON `null`.
#[verifier::external_body]
pub(crate) fn get_field_or_null(v: &serde_json::Value, key: &str) -> (r: serde_json::Value)
    ensures
        r == json_field_of(*v, key@),
{
    match v.get(key) {
        Some(x) => x.clone(),
        None => serde_json::Value::Null,
    }
}

/// Whether a JSON document is `null`.
pub uninterp spec fn json_is_null(v: serde_json::Value) -> bool;

/// Relies on `serde_json::Value::is_null`.
#[verifier::external_body]
fn value_is_null(v: &serde_json::Value) -> (r: bool)
    ensures
        r == json_is_null(*v),
{
    v.is_null()
}

/// The reverse-geocode payload: `None` where the backend answered JSON
/// `null` — no match near the coordinates — and the match document
/// otherwise.
pub fn reverse_match_payload(data: serde_json::Value) -> (r: Option<serde_json::Value>)
    ensures
        r is None <==> json_is_null(data),
        r matches Some(d) ==> d == data,
{
    if value_is_null(&data) {
        None
    } else {
        Some(data)
    }
}

/// Relies on `serde_json::to_vec`: serializes a JSON document; `Value`
/// serialization cannot fail, and the unreachable failure arm falls back to
/// an empty object.
#[verifier::external_body]
pub fn json_to_vec(v: &serde_json::Value) -> (r: Vec<u8>)
    ensures
        r@ == json_serialized(*v),
{
    serde_json::to_vec(v).unwrap_or_else(|_| b"{}".to_vec())
}

/// The envelope's status tag, where the document has one.
pub open spec fn envelope_status(v: serde_json::Value) -> Option<Seq<char>> {
    if json_str_fields(v).contains_key("status"@) {
        Some(json_str_fields(v)["status"@])
    } else {
        None
    }
}

/// The message an error envelope carries, with the fallback used when the
/// field is absent.
pub open spec fn envelope_message(v: serde_json::Value) -> Seq<char> {
    if json_str_fields(v).contains_key("message"@) {
        json_str_fields(v)["message"@]
    } else {
        "Unknown error"@
    }
}

/// Interpret one parsed response line as the `{status, data|message}`
/// envelope.  An `ok` status yields the `data` payload; an `error` status
/// yields the backend's message; anything else — including a line that is
/// not JSON — is protocol corruption carrying the raw line.
pub fn envelope_of(parsed: Result<serde_json::Value, String>, raw: &str) -> (r: Result<
    serde_json::Value,
    IpcError,
>)
    ensures
        (parsed matches Err(d) ==> (r matches Err(e) && e matches IpcError::ProtocolCorruption {
            detail,
            raw: rw,
        } && detail@ == d@ && rw@ == raw@)),
        (parsed matches Ok(v) ==> {
            &&& (envelope_status(v) == Some("ok"@) ==> r == Ok::<serde_json::Value, IpcError>(
                json_field_of(v, "data"@),
            ))
            &&& (envelope_status(v) == Some("error"@) ==> (r matches Err(
                e,
            ) && e matches IpcError::BackendReported { message } && message@ == envelope_message(
                v,
            )))
            &&& ((envelope_status(v) != Some("ok"@) && envelope_status(v) != Some("error"@))
                ==> (r matches Err(e) && e matches IpcError::ProtocolCorruption { detail, raw: rw }
                && detail@ == "missing or invalid envelope status"@ && rw@ == raw@))
        }),
{
    proof {
        reveal_strlit("ok");
        reveal_strlit("error");
        assert("ok"@.len() == 2);
        assert("error"@.len() == 5);
        assert("ok"@ != "error"@);
    }
    match parsed {
        Err(d) => Err(
            IpcError::ProtocolCorruption { detail: d, raw: String::from_str(raw) },
        ),
        Ok(v) => {
            let status = get_str_field(&v, "status");
            match status {
                Some(st) => {
                    if str_eq(st.as_str(), "ok") {
                        Ok(get_field_or_null(&v, "data"))
                    } else if str_eq(st.as_str(), "error") {
                        let message = match get_str_field(&v, "message") {
                            Some(m) => m,
                            None => String::from_str("Unknown error"),
                        };
                        Err(IpcError::BackendReported { message })
                    } else {
                        Err(
                            IpcError::ProtocolCorruption {
                                detail: String::from_str("missing or invalid envelope status"),
                                raw: String::from_str(raw),
                            },
                        )
                    }
                },
                None => Err(
                    IpcError::ProtocolCorruption {
                        detail: String::from_str("missing or invalid envelope status"),
                        raw: String::from_str(raw),
                    },
                ),
            }
        },
    }
}

/// Parse and interpret one raw response line.  A line that is not JSON is
/// protocol corruption carrying the parser's message; an `ok` envelope
/// yields exactly its `data` field; an `error` envelope yields the
/// backend's message; anything else is protocol corruption carrying the
/// raw line.
pub fn decode_response_line(line: &str) -> (r: Result<serde_json::Value, IpcError>)
    ensures
        json_parse_err(line@) matches Some(t) ==> (r matches Err(e)
            && e matches IpcError::ProtocolCorruption { detail, raw } && detail@ == t && raw@
            == line@),
        json_parse_err(line@) is None ==> ({
            let doc = json_doc_of(line@);
            &&& (envelope_status(doc) == Some("ok"@) ==> r == Ok::<serde_json::Value, IpcError>(
                json_field_of(doc, "data"@),
            ))
            &&& (envelope_status(doc) == Some("error"@) ==> (r matches Err(
                e,
            ) && e matches IpcError::BackendReported { message } && message@ == envelope_message(
                doc,
            )))
            &&& ((envelope_status(doc) != Some("ok"@) && envelope_status(doc) != Some("error"@))
                ==> (r matches Err(e) && e matches IpcError::ProtocolCorruption { detail, raw }
                && detail@ == "missing or invalid envelope status"@ && raw@ == line@))
        }),
{
    let parsed = parse_json_line(line);
    envelope_of(parsed, line)
}

/// The payload's `found` flag: absent or non-boolean reads as `false`.
pub open spec fn found_flag(v: serde_json::Value) -> bool {
    json_bool_fields(v).contains_key("found"@) && json_bool_fields(v)["found"@]
}

/// The payload's base64 data field, where it holds a string.
pub open spec fn payload_b64(v: serde_json::Value) -> Option<Seq<char>> {
    if json_str_fields(v).contains_key("data_base64"@) {
        Some(json_str_fields(v)["data_base64"@])
    } else {
        None
    }
}

/// Read a tile payload: `None` when the tile was not found, the base64 text
/// when it was, and a payload error when a found tile lacks its data.
pub fn get_tile_sync(data: &serde_json::Value) -> (r: Result<Option<String>, IpcError>)
    ensures
        !found_flag(*data) ==> (r matches Ok(o) && o is None),
        found_flag(*data) ==> (match payload_b64(*data) {
            Some(b) => r matches Ok(o) && o matches Some(s) && s@ == b,
            None => r matches Err(e) && e matches IpcError::InvalidPayload { what }
                && what@ == "Invalid tile data"@,
        }),
{
    let found = match get_bool_field(data, "found") {
        Some(b) => b,
        None => false,
    };
    if !found {
        return Ok(None);
    }
    match get_str_field(data, "data_base64") {
        Some(s) => Ok(Some(s)),
        None => Err(IpcError::InvalidPayload { what: String::from_str("Invalid tile data") }),
    }
}

/// Read a glyph payload, as [`get_tile_sync`] reads a tile payload.
pub fn get_glyph_sync(data: &serde_json::Value) -> (r: Result<Option<String>, IpcError>)
    ensures
        !found_flag(*data) ==> (r matches Ok(o) && o is None),
        found_flag(*data) ==> (match payload_b64(*data) {
            Some(b) => r matches Ok(o) && o matches Some(s) && s@ == b,
            None => r matches Err(e) && e matches IpcError::InvalidPayload { what }
                && what@ == "Invalid glyph data"@,
        }),
{
    let found = match get_bool_field(data, "found") {
        Some(b) => b,
        None => false,
    };
    if !found {
        return Ok(None);
    }
    match get_str_field(data, "data_base64") {
        Some(s) => Ok(Some(s)),
        None => Err(IpcError::InvalidPayload { what: String::from_str("Invalid glyph data") }),
    }
}

} // verus!
