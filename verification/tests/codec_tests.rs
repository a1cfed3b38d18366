use base64::Engine;
use motis_bridge::assets::maybe_inflate_zlib;
use motis_bridge::commands::{
    api_get_command, geocode_command, glyph_command, plan_route_command,
    reverse_geocode_command, tile_command,
};
use motis_bridge::dto::{LocationResult, Match, MatchArea, FloatBits, Token};
use motis_bridge::errors::IpcError;
use motis_bridge::gateway::{gateway_finish, FinishKind};
use motis_bridge::params::query_param;
use motis_bridge::text::{check_number_token, i32_to_string, parse_i32, u64_to_string};
use std::io::Write;

fn zlib_compress(data: &[u8]) -> Vec<u8> {
    let mut enc = flate2::write::ZlibEncoder::new(Vec::new(), flate2::Compression::default());
    enc.write_all(data).unwrap();
    enc.finish().unwrap()
}

fn b64(data: &[u8]) -> String {
    base64::engine::general_purpose::STANDARD.encode(data)
}

#[test]
fn zlib_detection_inflates_only_zlib_headers() {
    // Not starting with 0x78: passed through untouched.
    let plain = vec![0x1au8, 0x2b, 0x3c];
    assert_eq!(maybe_inflate_zlib(&plain), plain);
    // Too short: passed through.
    let short = vec![0x78u8];
    assert_eq!(maybe_inflate_zlib(&short), short);
    // A real zlib stream: replaced by its inflation.
    let payload = b"mapbox vector tile payload".to_vec();
    let compressed = zlib_compress(&payload);
    assert_eq!(compressed[0], 0x78);
    assert_eq!(maybe_inflate_zlib(&compressed), payload);
    // A zlib header over garbage: inflation fails, bytes pass through.
    let garbage = vec![0x78u8, 0x9c, 0xff, 0xff, 0xff];
    assert_eq!(maybe_inflate_zlib(&garbage), garbage);
    // A zlib stream inflating to nothing: the raw bytes pass through.
    let empty = zlib_compress(b"");
    assert_eq!(empty[0], 0x78);
    assert_eq!(maybe_inflate_zlib(&empty), empty);
}

fn ok_line_with_payload(payload_b64: &str) -> String {
    format!(
        "{{\"status\":\"ok\",\"data\":{{\"found\":true,\"data_base64\":\"{}\"}}}}",
        payload_b64
    )
}

#[test]
fn glyph_and_tile_responses_never_fail() {
    let outcomes: Vec<Result<String, IpcError>> = vec![
        Err(IpcError::NotInitialized),
        Err(IpcError::BackendReported { message: "unknown endpoint: /x".to_string() }),
        Ok("garbage line".to_string()),
        Ok("{\"status\":\"error\",\"message\":\"tile backend broke\"}".to_string()),
        Ok("{\"status\":\"ok\",\"data\":{\"found\":false}}".to_string()),
        Ok(ok_line_with_payload("!!!not-base64!!!")),
        Ok("{\"status\":\"ok\",\"data\":{\"found\":true}}".to_string()),
    ];
    for outcome in outcomes {
        let r = gateway_finish("/tiles/glyphs/a/b.pbf", FinishKind::GlyphBinary, outcome.clone());
        assert_eq!(r.status, 200, "glyph outcome {:?}", outcome);
        assert_eq!(r.content_type, "application/x-protobuf");
        assert!(r.body.is_empty());
        let r = gateway_finish("/api/v1/tiles/1/2/3.mvt", FinishKind::TileBinary, outcome.clone());
        assert_eq!(r.status, 200, "tile outcome {:?}", outcome);
        assert_eq!(r.content_type, "application/vnd.mapbox-vector-tile");
        assert!(r.body.is_empty());
    }
}

#[test]
fn glyph_payload_is_base64_decoded() {
    let payload = b"\x0aPBF glyph bytes".to_vec();
    let line = ok_line_with_payload(&b64(&payload));
    let r = gateway_finish("/tiles/glyphs/a/b.pbf", FinishKind::GlyphBinary, Ok(line));
    assert_eq!(r.status, 200);
    assert_eq!(r.body, payload);
}

#[test]
fn tile_payload_is_decoded_and_inflated() {
    let payload = b"tile protobuf bytes".to_vec();
    // Compressed payload: decoded and inflated back to the original.
    let line = ok_line_with_payload(&b64(&zlib_compress(&payload)));
    let r = gateway_finish("/api/v1/tiles/1/2/3.mvt", FinishKind::TileBinary, Ok(line));
    assert_eq!(r.body, payload);
    // Uncompressed payload: decoded and passed through.
    let line = ok_line_with_payload(&b64(&payload));
    let r = gateway_finish("/api/v1/tiles/1/2/3.mvt", FinishKind::TileBinary, Ok(line));
    assert_eq!(r.body, payload);
}

#[test]
fn command_lines_are_exact() {
    assert_eq!(
        geocode_command("oslo"),
        "{\"cmd\":\"geocode\",\"query\":\"oslo\"}"
    );
    assert_eq!(
        geocode_command("a\"b\\c"),
        "{\"cmd\":\"geocode\",\"query\":\"a\\\"b\\\\c\"}"
    );
    assert_eq!(
        geocode_command("line\nbreak"),
        "{\"cmd\":\"geocode\",\"query\":\"line\\u000abreak\"}"
    );
    assert_eq!(
        reverse_geocode_command("59.33", "-18.06"),
        "{\"cmd\":\"reverse_geocode\",\"lat\":59.33,\"lon\":-18.06}"
    );
    assert_eq!(
        plan_route_command("1.5", "2", "-3.25", "4e2"),
        "{\"cmd\":\"plan_route\",\"from_lat\":1.5,\"from_lon\":2,\"to_lat\":-3.25,\"to_lon\":4e2}"
    );
    assert_eq!(
        tile_command(0, -7, 2147483647),
        "{\"cmd\":\"get_tile\",\"z\":0,\"x\":-7,\"y\":2147483647}"
    );
    assert_eq!(
        glyph_command("/tiles/glyphs/a/0-255.pbf"),
        "{\"cmd\":\"get_glyph\",\"path\":\"/tiles/glyphs/a/0-255.pbf\"}"
    );
    assert_eq!(
        api_get_command("/api/v1/plan?a=1"),
        "{\"cmd\":\"api_get\",\"path\":\"/api/v1/plan?a=1\"}"
    );
}

#[test]
fn number_tokens_follow_the_grammar() {
    assert!(check_number_token("0"));
    assert!(check_number_token("59.331139"));
    assert!(check_number_token("-18.06192"));
    assert!(check_number_token("-3.5e2"));
    assert!(check_number_token("4E-2"));
    assert!(!check_number_token(""));
    assert!(!check_number_token("-"));
    assert!(!check_number_token("1."));
    assert!(!check_number_token(".5"));
    assert!(!check_number_token("1e"));
    assert!(!check_number_token("abc"));
    assert!(!check_number_token("12 "));
}

#[test]
fn integer_parsing_matches_std() {
    assert_eq!(parse_i32("0"), Some(0));
    assert_eq!(parse_i32("14"), Some(14));
    assert_eq!(parse_i32("+14"), Some(14));
    assert_eq!(parse_i32("-2147483648"), Some(-2147483648));
    assert_eq!(parse_i32("2147483647"), Some(2147483647));
    assert_eq!(parse_i32("2147483648"), None);
    assert_eq!(parse_i32("-2147483649"), None);
    assert_eq!(parse_i32(""), None);
    assert_eq!(parse_i32("-"), None);
    assert_eq!(parse_i32("12a"), None);
    assert_eq!(parse_i32("1.5"), None);
    assert_eq!(parse_i32("999999999999999999999"), None);
}

#[test]
fn integer_formatting_is_decimal() {
    assert_eq!(u64_to_string(0), "0");
    assert_eq!(u64_to_string(1000), "1000");
    assert_eq!(u64_to_string(18446744073709551615), "18446744073709551615");
    assert_eq!(i32_to_string(0), "0");
    assert_eq!(i32_to_string(-1), "-1");
    assert_eq!(i32_to_string(-2147483648), "-2147483648");
    assert_eq!(i32_to_string(2147483647), "2147483647");
}

#[test]
fn query_parameters_decode_and_override() {
    assert_eq!(query_param("text=oslo", "text"), Some("oslo".to_string()));
    assert_eq!(query_param("a=1&text=troms%C3%B8&b=2", "text"), Some("tromsø".to_string()));
    // The last occurrence of a key wins.
    assert_eq!(query_param("k=first&k=second", "k"), Some("second".to_string()));
    // A key without a value reads as empty.
    assert_eq!(query_param("flag&k=v", "flag"), Some(String::new()));
    // Encoded bytes that are not UTF-8 read as empty.
    assert_eq!(query_param("k=%FF", "k"), Some(String::new()));
    // Plus signs are kept, not turned into spaces.
    assert_eq!(query_param("k=a+b", "k"), Some("a+b".to_string()));
    assert_eq!(query_param("text=oslo", "q"), None);
    assert_eq!(query_param("", "q"), None);
}

#[test]
fn location_results_convert_to_matches() {
    let loc = LocationResult {
        name: "Oslo S".to_string(),
        place_id: "osm:123".to_string(),
        lat: FloatBits { bits: 4632251763372899827 },
        lon: FloatBits { bits: 4621819117588971520 },
        type_: None,
        areas: vec![MatchArea {
            name: "Oslo".to_string(),
            admin_level: Some(4),
            matched: Some(true),
            unique: None,
            is_default: None,
        }],
        tokens: vec![vec![], vec![1], vec![2, 3], vec![4, 5, 6]],
        score: FloatBits { bits: 1 },
        category: Some("station".to_string()),
        modes: Some(vec!["rail".to_string(), "bus".to_string()]),
        importance: None,
        street: None,
        house_number: None,
        country: Some("Norway".to_string()),
        zip: None,
    };
    let m = Match::from_location_result(&loc);
    assert_eq!(m.type_, "PLACE");
    assert_eq!(m.name, "Oslo S");
    assert_eq!(m.id, "osm:123");
    assert_eq!(m.lat, FloatBits { bits: 4632251763372899827 });
    assert_eq!(m.lon, FloatBits { bits: 4621819117588971520 });
    assert_eq!(m.tokens, vec![Token { start: 2, len: 3 }, Token { start: 4, len: 5 }]);
    assert_eq!(m.areas.len(), 1);
    assert_eq!(m.areas[0].name, "Oslo");
    assert_eq!(m.category.as_deref(), Some("station"));
    assert_eq!(m.country.as_deref(), Some("Norway"));
    assert!(m.tz.is_none());
    assert!(m.level.is_none());
    assert_eq!(
        m.modes,
        Some(vec!["rail".to_string(), "bus".to_string()])
    );

    let typed = LocationResult { type_: Some("STOP".to_string()), ..loc };
    let m = Match::from_location_result(&typed);
    assert_eq!(m.type_, "STOP");
}

#[test]
fn reverse_payload_distinguishes_null_from_match() {
    let data = motis_bridge::jsonv::decode_response_line("{\"status\":\"ok\",\"data\":null}")
        .unwrap();
    assert!(motis_bridge::jsonv::reverse_match_payload(data).is_none());
    let data =
        motis_bridge::jsonv::decode_response_line("{\"status\":\"ok\",\"data\":{\"name\":\"x\"}}")
            .unwrap();
    assert!(motis_bridge::jsonv::reverse_match_payload(data).is_some());
    // A missing data field reads as null.
    let data = motis_bridge::jsonv::decode_response_line("{\"status\":\"ok\"}").unwrap();
    assert!(motis_bridge::jsonv::reverse_match_payload(data).is_none());
}

#[test]
fn error_messages_render_their_taxonomy() {
    assert_eq!(IpcError::NotInitialized.message(), "IPC not initialized");
    assert_eq!(
        IpcError::UnknownEndpoint { path: "/x".to_string() }.message(),
        "Unknown endpoint: /x"
    );
    assert_eq!(
        IpcError::CommandFailed { attempts: 3, detail: "broken pipe".to_string() }.message(),
        "IPC command failed after 3 attempts: broken pipe"
    );
    assert_eq!(
        IpcError::NotRecoverable { detail: "eof".to_string() }.message(),
        "IPC recovery failed after command error: eof"
    );
    assert_eq!(
        IpcError::ProtocolCorruption { detail: "expected value".to_string(), raw: "x".to_string() }
            .message(),
        "Invalid IPC JSON response: expected value (raw: x)"
    );
    assert_eq!(
        IpcError::BackendReported { message: "no such stop".to_string() }.message(),
        "no such stop"
    );
}
