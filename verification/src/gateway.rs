//! The protocol gateway: request planning and response shaping.
//!
//! A request is handled in two phases.  [`gateway_plan`] classifies the
//! path, validates parameters and either answers at once or names the one
//! backend command the request needs.  The driver sends that command
//! through the supervisor and hands the outcome to [`gateway_finish`],
//! which shapes the response.  Both phases are pure; every failure is
//! funneled through [`failure_response`], whose status and stage come from
//! the message classifier.

use vstd::prelude::*;
use vstd::utf8::encode_utf8;
use crate::assets::{b64_decoded, glyph_response_bytes, inflated_tile_bytes, tile_response_bytes};
use crate::commands::{api_get_command, api_get_command_text, geocode_command,
    geocode_command_text, glyph_command, glyph_command_text, json_escaped,
    reverse_geocode_command, reverse_geocode_command_text, tile_command, tile_command_text};
use crate::errors::{classify_error, corruption_text, error_class_of, error_text, IpcError};
use crate::jsonv::{decode_response_line, envelope_message, envelope_status, found_flag,
    get_glyph_sync, get_tile_sync, json_doc_of, json_field_of, json_parse_err, json_serialized,
    json_to_vec, payload_b64};
use crate::params::{next_pos, param_value, query_param};
use crate::routes::{classify_path, route_of, RouteKind};
use crate::text::{ends_with, ends_with_str, is_number_token, check_number_token, parse_i32,
    parse_i32_spec};

verus! {

/// A shaped response: an HTTP status, a content type, and the body bytes.
#[derive(Debug)]
pub struct GatewayResponse {
    pub status: u16,
    pub content_type: &'static str,
    pub body: Vec<u8>,
}

/// The JSON body of an error response.
pub open spec fn error_body_text(error: Seq<char>, stage: Seq<char>, path: Seq<char>) -> Seq<
    char,
> {
    "{\"error\":\""@ + json_escaped(error) + "\",\"stage\":\""@ + json_escaped(stage)
        + "\",\"path\":\""@ + json_escaped(path) + "\"}"@
}

/// Shape an error response: a JSON `{error, stage, path}` body under the
/// given status.
pub fn error_response(status: u16, stage: &'static str, path: &str, message: &str) -> (r:
    GatewayResponse)
    ensures
        r.status == status,
        r.content_type@ == "application/json"@,
        r.body@ == encode_utf8(error_body_text(message@, stage@, path@)),
{
    let mut s = String::new();
    s.append("{\"error\":\"");
    crate::commands::append_escaped(&mut s, message);
    s.append("\",\"stage\":\"");
    crate::commands::append_escaped(&mut s, stage);
    s.append("\",\"path\":\"");
    crate::commands::append_escaped(&mut s, path);
    s.append("\"}");
    let body = s.as_str().as_bytes_vec();
    GatewayResponse { status, content_type: "application/json", body }
}

/// Shape a failure: the status and stage come from classifying the
/// message.
pub fn failure_response(path: &str, message: &str) -> (r: GatewayResponse)
    ensures
        r.status == error_class_of(message@).0,
        r.content_type@ == "application/json"@,
        r.body@ == encode_utf8(
            error_body_text(message@, error_class_of(message@).1, path@),
        ),
{
    let (status, stage) = classify_error(message);
    error_response(status, stage, path, message)
}

/// Shape a successful JSON response.
pub fn json_ok_response(body: Vec<u8>) -> (r: GatewayResponse)
    ensures
        r.status == 200,
        r.content_type@ == "application/json"@,
        r.body@ == body@,
{
    GatewayResponse { status: 200, content_type: "application/json", body }
}

/// How the one backend reply a request needs is to be shaped.
#[derive(Debug, Clone, Copy, PartialEq, Eq, Structural)]
pub enum FinishKind {
    GeocodeJson,
    ReverseGeocodeJson,
    PassthroughJson,
    GlyphBinary,
    TileBinary,
}

/// What a planned request needs next: an immediate response, or one
/// backend command whose reply the named finish shapes.
#[derive(Debug)]
pub enum GatewayStep {
    Respond { response: GatewayResponse },
    CallBackend { line: String, finish: FinishKind },
}

/// The step is a backend call with this command line and finish.
pub open spec fn is_call(s: GatewayStep, line: Seq<char>, k: FinishKind) -> bool {
    s matches GatewayStep::CallBackend { line: l, finish } && l@ == line && finish == k
}

/// The response is the failure response for this message, shaped by the
/// classifier.
pub open spec fn classified_response(r: GatewayResponse, path: Seq<char>, msg: Seq<char>) -> bool {
    r.status == error_class_of(msg).0 && r.content_type@ == "application/json"@ && r.body@
        == encode_utf8(error_body_text(msg, error_class_of(msg).1, path))
}

/// The step is an immediate failure response for this message, shaped by
/// the classifier.
pub open spec fn is_classified_error(s: GatewayStep, path: Seq<char>, msg: Seq<char>) -> bool {
    s matches GatewayStep::Respond { response } && classified_response(response, path, msg)
}

/// The step is an immediate empty binary response of this content type.
pub open spec fn is_empty_asset(s: GatewayStep, ct: Seq<char>) -> bool {
    s matches GatewayStep::Respond { response } && response.status == 200
        && response.content_type@ == ct && response.body@ == Seq::<u8>::empty()
}

/// The step is an immediate successful JSON response with this body text.
pub open spec fn is_json_ok(s: GatewayStep, text: Seq<char>) -> bool {
    s matches GatewayStep::Respond { response } && response.status == 200
        && response.content_type@ == "application/json"@ && response.body@ == encode_utf8(text)
}

/// The geocode query term: the first present parameter among `text`, `q`,
/// `query` and `search`.
pub open spec fn geocode_query_of(q: Seq<char>) -> Option<Seq<char>> {
    match param_value(q, "text"@) {
        Some(v) => Some(v),
        None => match param_value(q, "q"@) {
            Some(v) => Some(v),
            None => match param_value(q, "query"@) {
                Some(v) => Some(v),
                None => param_value(q, "search"@),
            },
        },
    }
}

/// The passthrough string: the path alone for an empty query, else the
/// path, `?`, and the query byte-for-byte unchanged.
pub open spec fn passthrough_text(p: Seq<char>, q: Seq<char>) -> Seq<char> {
    if q.len() == 0 {
        p
    } else {
        p + "?"@ + q
    }
}

/// Reconstruct `path?query` exactly as received.  The query is never
/// re-encoded: planning endpoints embed identifiers whose exact byte
/// sequence is load-bearing.
pub fn build_passthrough_path_and_query(path: &str, query: &str) -> (r: String)
    ensures
        r@ == passthrough_text(path@, query@),
{
    if query.is_empty() {
        String::from_str(path)
    } else {
        let mut s = String::from_str(path);
        s.append("?");
        s.append(query);
        s
    }
}

/// The non-empty `/`-separated segments of a path, from position `i` on.
pub open spec fn seg_list(p: Seq<char>, i: int) -> Seq<Seq<char>>
    recommends
        0 <= i <= p.len(),
    decreases p.len() - i,
{
    let j = if next_pos(p, i, '/') < i {
        i
    } else {
        next_pos(p, i, '/')
    };
    let piece = p.subrange(i, j);
    let rest = if j >= p.len() {
        Seq::<Seq<char>>::empty()
    } else {
        seg_list(p, j + 1)
    };
    if piece.len() > 0 {
        seq![piece] + rest
    } else {
        rest
    }
}

/// A name with every trailing `.mvt` suffix stripped.
pub open spec fn strip_mvt(s: Seq<char>) -> Seq<char>
    decreases s.len(),
{
    if ends_with(s, ".mvt"@) && s.len() >= 4 {
        strip_mvt(s.subrange(0, s.len() - 4))
    } else {
        s
    }
}

/// The tile coordinates a path encodes: the last three non-empty segments
/// parsed as integers, the last with its `.mvt` suffix stripped first;
/// `None` where there are fewer than three segments or one does not
/// parse.
pub open spec fn tile_coords(p: Seq<char>) -> Option<(i32, i32, i32)> {
    let segs = seg_list(p, 0);
    if segs.len() < 3 {
        None
    } else {
        let zs = segs[segs.len() - 3];
        let xs = segs[segs.len() - 2];
        let ys = strip_mvt(segs[segs.len() - 1]);
        match (parse_i32_spec(zs), parse_i32_spec(xs), parse_i32_spec(ys)) {
            (Some(z), Some(x), Some(y)) => Some((z, x, y)),
            _ => None,
        }
    }
}

spec fn texts_of_strs(v: Seq<String>) -> Seq<Seq<char>> {
    v.map_values(|s: String| s@)
}

fn path_segments(p: &str) -> (r: Vec<String>)
    ensures
        texts_of_strs(r@) == seg_list(p@, 0),
{
    let len = p.unicode_len();
    let mut out: Vec<String> = Vec::new();
    let mut i: usize = 0;
    let mut done = false;
    while !done
        invariant
            i <= len,
            len == p@.len(),
            !done ==> seg_list(p@, 0) == texts_of_strs(out@) + seg_list(p@, i as int),
            done ==> seg_list(p@, 0) == texts_of_strs(out@),
        decreases len - i + (if done {
            0int
        } else {
            1int
        }),
    {
        let j = crate::params::find_pos(p, len, i, '/');
        let ghost pre = out@;
        if j > i {
            let piece = p.substring_char(i, j);
            out.push(String::from_str(piece));
            proof {
                assert(texts_of_strs(out@) =~= texts_of_strs(pre) + seq![p@.subrange(
                    i as int,
                    j as int,
                )]);
            }
        }
        proof {
            assert(seg_list(p@, i as int) == (if p@.subrange(i as int, j as int).len() > 0 {
                seq![p@.subrange(i as int, j as int)]
            } else {
                Seq::<Seq<char>>::empty()
            }) + (if j >= len {
                Seq::<Seq<char>>::empty()
            } else {
                seg_list(p@, j + 1)
            }));
        }
        if j >= len {
            done = true;
        } else {
            i = j + 1;
        }
    }
    out
}

fn strip_mvt_exec(s: &String) -> (r: String)
    ensures
        r@ == strip_mvt(s@),
    decreases s@.len(),
{
    let len = s.as_str().unicode_len();
    if len >= 4 && ends_with_str(s.as_str(), ".mvt") {
        let shorter = s.as_str().substring_char(0, len - 4).to_owned();
        strip_mvt_exec(&shorter)
    } else {
        proof {
            if s@.len() < 4 {
                reveal_strlit(".mvt");
            }
        }
        s.clone()
    }
}

/// The message shown when no backend connection exists and none could be
/// established.
pub open spec fn not_initialized_text() -> Seq<char> {
    "MOTIS IPC not initialized. Next action: launch via RUN.sh or set MOTIS_IPC_PATH and MOTIS_DATA_PATH."@
}

/// Plan one request: classify the path, validate what the route needs,
/// and either respond at once or name the single backend command to send.
pub fn gateway_plan(initialized: bool, path: &str, query: &str) -> (r: GatewayStep)
    ensures
        !initialized ==> (r matches GatewayStep::Respond { response } && response.status == 503
            && response.content_type@ == "application/json"@ && response.body@ == encode_utf8(
            error_body_text(not_initialized_text(), "initialization"@, path@),
        )),
        initialized ==> match route_of(path@) {
            RouteKind::Geocode => match geocode_query_of(query@) {
                Some(q) => is_call(r, geocode_command_text(q), FinishKind::GeocodeJson),
                None => is_classified_error(
                    r,
                    path@,
                    "Missing query parameter (expected 'text', 'q', 'query', or 'search')"@,
                ),
            },
            RouteKind::ReverseGeocode => match (
                param_value(query@, "lat"@),
                param_value(query@, "lon"@),
            ) {
                (Some(lat), Some(lon)) => {
                    if !is_number_token(lat) {
                        is_classified_error(r, path@, "Missing or invalid 'lat' parameter"@)
                    } else if !is_number_token(lon) {
                        is_classified_error(r, path@, "Missing or invalid 'lon' parameter"@)
                    } else {
                        is_call(
                            r,
                            reverse_geocode_command_text(lat, lon),
                            FinishKind::ReverseGeocodeJson,
                        )
                    }
                },
                (None, _) => is_classified_error(
                    r,
                    path@,
                    "Missing or invalid 'lat' parameter"@,
                ),
                (Some(lat), None) => {
                    if !is_number_token(lat) {
                        is_classified_error(r, path@, "Missing or invalid 'lat' parameter"@)
                    } else {
                        is_classified_error(r, path@, "Missing or invalid 'lon' parameter"@)
                    }
                },
            },
            RouteKind::Passthrough => is_call(
                r,
                api_get_command_text(passthrough_text(path@, query@)),
                FinishKind::PassthroughJson,
            ),
            RouteKind::Glyph => is_call(r, glyph_command_text(path@), FinishKind::GlyphBinary),
            RouteKind::Tiles => match tile_coords(path@) {
                Some((z, x, y)) => is_call(
                    r,
                    tile_command_text(z as int, x as int, y as int),
                    FinishKind::TileBinary,
                ),
                None => is_empty_asset(r, "application/vnd.mapbox-vector-tile"@),
            },
            RouteKind::DebugTransfers => is_json_ok(r, "[]"@),
            RouteKind::Unknown => is_classified_error(r, path@, "Unknown endpoint: "@ + path@),
        },
{
    if !initialized {
        let response = error_response(
            503,
            "initialization",
            path,
            "MOTIS IPC not initialized. Next action: launch via RUN.sh or set MOTIS_IPC_PATH and MOTIS_DATA_PATH.",
        );
        return GatewayStep::Respond { response };
    }
    match classify_path(path) {
        RouteKind::Geocode => {
            let q = match query_param(query, "text") {
                Some(v) => Some(v),
                None => match query_param(query, "q") {
                    Some(v) => Some(v),
                    None => match query_param(query, "query") {
                        Some(v) => Some(v),
                        None => query_param(query, "search"),
                    },
                },
            };
            match q {
                Some(term) => GatewayStep::CallBackend {
                    line: geocode_command(term.as_str()),
                    finish: FinishKind::GeocodeJson,
                },
                None => GatewayStep::Respond {
                    response: failure_response(
                        path,
                        "Missing query parameter (expected 'text', 'q', 'query', or 'search')",
                    ),
                },
            }
        },
        RouteKind::ReverseGeocode => {
            let lat = query_param(query, "lat");
            let lat_ok = match &lat {
                Some(v) => check_number_token(v.as_str()),
                None => false,
            };
            if !lat_ok {
                return GatewayStep::Respond {
                    response: failure_response(path, "Missing or invalid 'lat' parameter"),
                };
            }
            let lon = query_param(query, "lon");
            let lon_ok = match &lon {
                Some(v) => check_number_token(v.as_str()),
                None => false,
            };
            if !lon_ok {
                return GatewayStep::Respond {
                    response: failure_response(path, "Missing or invalid 'lon' parameter"),
                };
            }
            let lat = lat.unwrap();
            let lon = lon.unwrap();
            GatewayStep::CallBackend {
                line: reverse_geocode_command(lat.as_str(), lon.as_str()),
                finish: FinishKind::ReverseGeocodeJson,
            }
        },
        RouteKind::Passthrough => {
            let pq = build_passthrough_path_and_query(path, query);
            GatewayStep::CallBackend {
                line: api_get_command(pq.as_str()),
                finish: FinishKind::PassthroughJson,
            }
        },
        RouteKind::Glyph => GatewayStep::CallBackend {
            line: glyph_command(path),
            finish: FinishKind::GlyphBinary,
        },
        RouteKind::Tiles => {
            let segs = path_segments(path);
            if segs.len() < 3 {
                return GatewayStep::Respond {
                    response: GatewayResponse {
                        status: 200,
                        content_type: "application/vnd.mapbox-vector-tile",
                        body: Vec::new(),
                    },
                };
            }
            let n = segs.len();
            let zs = &segs[n - 3];
            let xs = &segs[n - 2];
            let ys = strip_mvt_exec(&segs[n - 1]);
            proof {
                assert(texts_of_strs(segs@)[n - 3] == segs@[n - 3]@);
                assert(texts_of_strs(segs@)[n - 2] == segs@[n - 2]@);
                assert(texts_of_strs(segs@)[n - 1] == segs@[n - 1]@);
            }
            let z = parse_i32(zs.as_str());
            let x = parse_i32(xs.as_str());
            let y = parse_i32(ys.as_str());
            match (z, x, y) {
                (Some(z), Some(x), Some(y)) => GatewayStep::CallBackend {
                    line: tile_command(z, x, y),
                    finish: FinishKind::TileBinary,
                },
                _ => GatewayStep::Respond {
                    response: GatewayResponse {
                        status: 200,
                        content_type: "application/vnd.mapbox-vector-tile",
                        body: Vec::new(),
                    },
                },
            }
        },
        RouteKind::DebugTransfers => {
            let body = "[]".as_bytes_vec();
            GatewayStep::Respond { response: json_ok_response(body) }
        },
        RouteKind::Unknown => {
            let mut msg = String::new();
            msg.append("Unknown endpoint: ");
            msg.append(path);
            GatewayStep::Respond { response: failure_response(path, msg.as_str()) }
        },
    }
}

/// The base64 payload a backend reply line carries for an asset request:
/// present exactly where the line parses, the envelope's status is `ok`,
/// the payload's `found` flag is set and its data field holds a string.
pub open spec fn asset_payload_of(line: Seq<char>) -> Option<Seq<char>> {
    if json_parse_err(line) is None {
        let doc = json_doc_of(line);
        if envelope_status(doc) == Some("ok"@) {
            let data = json_field_of(doc, "data"@);
            if found_flag(data) {
                payload_b64(data)
            } else {
                None
            }
        } else {
            None
        }
    } else {
        None
    }
}

/// The glyph body a reply line yields: the base64-decoded payload, and
/// empty wherever anything along the way is missing or undecodable.
pub open spec fn glyph_reply_body(line: Seq<char>) -> Seq<u8> {
    match asset_payload_of(line) {
        Some(s) => match b64_decoded(s) {
            Some(b) => b,
            None => Seq::empty(),
        },
        None => Seq::empty(),
    }
}

/// The tile body a reply line yields: the decoded payload, inflated where
/// it carries a zlib header, and empty wherever anything along the way is
/// missing or undecodable.
pub open spec fn tile_reply_body(line: Seq<char>) -> Seq<u8> {
    match asset_payload_of(line) {
        Some(s) => match b64_decoded(s) {
            Some(b) => inflated_tile_bytes(b),
            None => Seq::empty(),
        },
        None => Seq::empty(),
    }
}

/// Shape the response for one backend outcome.  Glyph and tile requests
/// never fail: whatever the outcome — transport failure, backend error,
/// asset not found, undecodable payload — the response is HTTP 200 with
/// the binary content type and exactly the body the reply line yields,
/// possibly empty.  A passthrough reply's `data` payload is returned
/// verbatim as JSON, and every failure on that route is shaped by the
/// classifier.
pub fn gateway_finish(path: &str, finish: FinishKind, outcome: Result<String, IpcError>) -> (r:
    GatewayResponse)
    requires
        finish == FinishKind::PassthroughJson || finish == FinishKind::GlyphBinary || finish
            == FinishKind::TileBinary,
    ensures
        finish == FinishKind::GlyphBinary ==> (r.status == 200 && r.content_type@
            == "application/x-protobuf"@ && (match outcome {
            Err(_) => r.body@ == Seq::<u8>::empty(),
            Ok(line) => r.body@ == glyph_reply_body(line@),
        })),
        finish == FinishKind::TileBinary ==> (r.status == 200 && r.content_type@
            == "application/vnd.mapbox-vector-tile"@ && (match outcome {
            Err(_) => r.body@ == Seq::<u8>::empty(),
            Ok(line) => r.body@ == tile_reply_body(line@),
        })),
        finish == FinishKind::PassthroughJson ==> (r.content_type@ == "application/json"@ && (
        match outcome {
            Err(e) => classified_response(r, path@, error_text(e)),
            Ok(line) => (match json_parse_err(line@) {
                Some(t) => classified_response(r, path@, corruption_text(t, line@)),
                None => ({
                    let doc = json_doc_of(line@);
                    &&& (envelope_status(doc) == Some("ok"@) ==> (r.status == 200 && r.body@
                        == json_serialized(json_field_of(doc, "data"@))))
                    &&& (envelope_status(doc) == Some("error"@) ==> classified_response(
                        r,
                        path@,
                        envelope_message(doc),
                    ))
                    &&& ((envelope_status(doc) != Some("ok"@) && envelope_status(doc) != Some(
                        "error"@,
                    )) ==> classified_response(
                        r,
                        path@,
                        corruption_text("missing or invalid envelope status"@, line@),
                    ))
                }),
            }),
        })),
{
    match finish {
        FinishKind::PassthroughJson => {
            match outcome {
                Err(e) => {
                    let msg = e.message();
                    failure_response(path, msg.as_str())
                },
                Ok(line) => {
                    match decode_response_line(line.as_str()) {
                        Err(e) => {
                            let msg = e.message();
                            failure_response(path, msg.as_str())
                        },
                        Ok(data) => json_ok_response(json_to_vec(&data)),
                    }
                },
            }
        },
        FinishKind::GlyphBinary => {
            let fetch: Result<Option<String>, IpcError> = match outcome {
                Err(e) => Err(e),
                Ok(line) => match decode_response_line(line.as_str()) {
                    Err(e) => Err(e),
                    Ok(data) => get_glyph_sync(&data),
                },
            };
            GatewayResponse {
                status: 200,
                content_type: "application/x-protobuf",
                body: glyph_response_bytes(&fetch),
            }
        },
        _ => {
            let fetch: Result<Option<String>, IpcError> = match outcome {
                Err(e) => Err(e),
                Ok(line) => match decode_response_line(line.as_str()) {
                    Err(e) => Err(e),
                    Ok(data) => get_tile_sync(&data),
                },
            };
            GatewayResponse {
                status: 200,
                content_type: "application/vnd.mapbox-vector-tile",
                body: tile_response_bytes(&fetch),
            }
        },
    }
}

/// The trip route is served by the generic passthrough, never by this
/// legacy handler.
pub fn handle_trip() -> (r: Result<(Vec<u8>, &'static str), String>)
    ensures
        r matches Err(e) && e@ == "Legacy trip handler should not be used"@,
{
    Err(String::from_str("Legacy trip handler should not be used"))
}

/// The stop-times route is served by the generic passthrough, never by
/// this legacy handler.
pub fn handle_stoptimes() -> (r: Result<(Vec<u8>, &'static str), String>)
    ensures
        r matches Err(e) && e@ == "Legacy stoptimes handler should not be used"@,
{
    Err(String::from_str("Legacy stoptimes handler should not be used"))
}

/// The map-trips route is served by the generic passthrough, never by
/// this legacy handler.
pub fn handle_map_trips() -> (r: Result<(Vec<u8>, &'static str), String>)
    ensures
        r matches Err(e) && e@ == "Legacy map trips handler should not be used"@,
{
    Err(String::from_str("Legacy map trips handler should not be used"))
}

/// The initial-map route is served by the generic passthrough, never by
/// this legacy handler.
pub fn handle_map_initial() -> (r: Result<(Vec<u8>, &'static str), String>)
    ensures
        r matches Err(e) && e@ == "Legacy map initial handler should not be used"@,
{
    Err(String::from_str("Legacy map initial handler should not be used"))
}

/// The map-stops route is served by the generic passthrough, never by
/// this legacy handler.
pub fn handle_map_stops() -> (r: Result<(Vec<u8>, &'static str), String>)
    ensures
        r matches Err(e) && e@ == "Legacy map stops handler should not be used"@,
{
    Err(String::from_str("Legacy map stops handler should not be used"))
}

/// The map-levels route is served by the generic passthrough, never by
/// this legacy handler.
pub fn handle_map_levels() -> (r: Result<(Vec<u8>, &'static str), String>)
    ensures
        r matches Err(e) && e@ == "Legacy map levels handler should not be used"@,
{
    Err(String::from_str("Legacy map levels handler should not be used"))
}

/// The one-to-many route is served by the generic passthrough, never by
/// this legacy handler.
pub fn handle_one_to_many() -> (r: Result<(Vec<u8>, &'static str), String>)
    ensures
        r matches Err(e) && e@ == "Legacy one-to-many handler should not be used"@,
{
    Err(String::from_str("Legacy one-to-many handler should not be used"))
}

/// The one-to-all route is served by the generic passthrough, never by
/// this legacy handler.
pub fn handle_one_to_all() -> (r: Result<(Vec<u8>, &'static str), String>)
    ensures
        r matches Err(e) && e@ == "Legacy one-to-all handler should not be used"@,
{
    Err(String::from_str("Legacy one-to-all handler should not be used"))
}

/// The rentals route is served by the generic passthrough, never by this
/// legacy handler.
pub fn handle_rentals() -> (r: Result<(Vec<u8>, &'static str), String>)
    ensures
        r matches Err(e) && e@ == "Legacy rentals handler should not be used"@,
{
    Err(String::from_str("Legacy rentals handler should not be used"))
}

/// The debug-transfers route: a fixed empty-array JSON body.
pub fn handle_debug_transfers() -> (r: Result<(Vec<u8>, &'static str), String>)
    ensures
        r matches Ok(p) && p.0@ == encode_utf8("[]"@) && p.1@ == "application/json"@,
{
    Ok(("[]".as_bytes_vec(), "application/json"))
}

} // verus!
