use motis_bridge::gateway::{
    build_passthrough_path_and_query, error_response, failure_response, gateway_finish,
    gateway_plan, handle_debug_transfers, handle_map_initial, handle_map_levels,
    handle_map_stops, handle_map_trips, handle_one_to_all, handle_one_to_many, handle_rentals,
    handle_stoptimes, handle_trip, FinishKind, GatewayStep,
};
use motis_bridge::commands::{api_get_command, geocode_command, glyph_command, tile_command};
use motis_bridge::errors::{classify_error, IpcError};
use motis_bridge::routes::{classify_path, RouteKind};

#[test]
fn passthrough_path_without_query() {
    assert_eq!(
        build_passthrough_path_and_query("/api/v1/plan", ""),
        "/api/v1/plan"
    );
}

#[test]
fn passthrough_preserves_stop_id_query_for_plan() {
    let query = "fromPlace=sweden_1617&toPlace=sweden_765&time=2026-02-07T08%3A00%3A00Z";
    assert_eq!(
        build_passthrough_path_and_query("/api/v1/plan", query),
        "/api/v1/plan?fromPlace=sweden_1617&toPlace=sweden_765&time=2026-02-07T08%3A00%3A00Z"
    );
}

#[test]
fn passthrough_preserves_coordinate_query_for_plan() {
    let query = "fromPlace=59.331139%2C18.059447&toPlace=59.313578%2C18.06192";
    assert_eq!(
        build_passthrough_path_and_query("/api/v5/plan", query),
        "/api/v5/plan?fromPlace=59.331139%2C18.059447&toPlace=59.313578%2C18.06192"
    );
}

#[test]
fn openapi_endpoints_are_routed_in_protocol_mode() {
    let openapi_paths = [
        "/api/v5/plan",
        "/api/v1/one-to-many",
        "/api/v1/one-to-all",
        "/api/v1/reverse-geocode",
        "/api/v1/geocode",
        "/api/v5/trip",
        "/api/v5/stoptimes",
        "/api/v5/map/trips",
        "/api/v1/map/initial",
        "/api/v1/map/stops",
        "/api/v1/map/levels",
        "/api/v1/rentals",
        "/api/debug/transfers",
    ];

    for path in openapi_paths {
        assert_ne!(
            classify_path(path),
            RouteKind::Unknown,
            "UI OpenAPI path not routed in protocol mode: {path}"
        );
    }
}

#[test]
fn route_kinds_are_assigned() {
    assert_eq!(classify_path("/api/v1/geocode"), RouteKind::Geocode);
    assert_eq!(classify_path("/api/v5/reverse-geocode"), RouteKind::ReverseGeocode);
    assert_eq!(classify_path("/api/v5/plan"), RouteKind::Passthrough);
    assert_eq!(classify_path("/api/v1/map/rentals"), RouteKind::Passthrough);
    assert_eq!(classify_path("/api/experimental/one-to-all"), RouteKind::Passthrough);
    assert_eq!(classify_path("/tiles/glyphs/Roboto/0-255.pbf"), RouteKind::Glyph);
    assert_eq!(classify_path("/api/v1/tiles/2/3/4.mvt"), RouteKind::Tiles);
    assert_eq!(classify_path("/tiles/2/3/4.mvt"), RouteKind::Tiles);
    assert_eq!(classify_path("/tiles/2/3/4"), RouteKind::Unknown);
    assert_eq!(classify_path("/api/debug/transfers"), RouteKind::DebugTransfers);
    assert_eq!(classify_path("/api/v2/geocode"), RouteKind::Unknown);
    assert_eq!(classify_path(""), RouteKind::Unknown);
}

#[test]
fn error_classification_matches_known_substrings() {
    assert_eq!(classify_error("Unknown endpoint: /nope"), (404, "endpoint"));
    assert_eq!(classify_error("backend not initialized yet"), (503, "initialization"));
    assert_eq!(classify_error("Data directory not found: /d"), (503, "initialization"));
    assert_eq!(classify_error("write failed: Broken PIPE"), (502, "ipc"));
    assert_eq!(classify_error("motis-ipc exited before response"), (502, "ipc"));
    assert_eq!(classify_error("something odd happened"), (500, "endpoint"));
    // The endpoint prefix must be a prefix, not merely contained.
    assert_eq!(classify_error("saw unknown endpoint: /x in log"), (500, "endpoint"));
}

#[test]
fn error_response_shapes_json_body() {
    let r = error_response(503, "initialization", "/api/v1/geocode", "backend starting");
    assert_eq!(r.status, 503);
    assert_eq!(r.content_type, "application/json");
    assert_eq!(
        String::from_utf8(r.body).unwrap(),
        "{\"error\":\"backend starting\",\"stage\":\"initialization\",\"path\":\"/api/v1/geocode\"}"
    );
}

#[test]
fn failure_response_escapes_quotes() {
    let r = failure_response("/p", "bad \"quote\"");
    assert_eq!(r.status, 500);
    assert_eq!(
        String::from_utf8(r.body).unwrap(),
        "{\"error\":\"bad \\\"quote\\\"\",\"stage\":\"endpoint\",\"path\":\"/p\"}"
    );
}

#[test]
fn plan_requires_initialization() {
    match gateway_plan(false, "/api/v1/geocode", "text=oslo") {
        GatewayStep::Respond { response } => {
            assert_eq!(response.status, 503);
            let body = String::from_utf8(response.body).unwrap();
            assert!(body.contains("\"stage\":\"initialization\""));
            assert!(body.contains("MOTIS IPC not initialized"));
        }
        other => panic!("expected an immediate response, got {:?}", other),
    }
}

#[test]
fn plan_geocode_picks_first_parameter_name() {
    match gateway_plan(true, "/api/v1/geocode", "q=bergen&text=oslo") {
        GatewayStep::CallBackend { line, finish } => {
            assert_eq!(finish, FinishKind::GeocodeJson);
            assert_eq!(line, geocode_command("oslo"));
            assert_eq!(line, "{\"cmd\":\"geocode\",\"query\":\"oslo\"}");
        }
        other => panic!("expected a backend call, got {:?}", other),
    }
    match gateway_plan(true, "/api/v1/geocode", "search=troms%C3%B8") {
        GatewayStep::CallBackend { line, .. } => {
            assert_eq!(line, geocode_command("tromsø"));
        }
        other => panic!("expected a backend call, got {:?}", other),
    }
}

#[test]
fn plan_geocode_without_query_term_is_rejected() {
    match gateway_plan(true, "/api/v1/geocode", "lang=en") {
        GatewayStep::Respond { response } => {
            assert_eq!(response.status, 500);
            let body = String::from_utf8(response.body).unwrap();
            assert!(body.contains("Missing query parameter"));
        }
        other => panic!("expected a rejection, got {:?}", other),
    }
}

#[test]
fn plan_reverse_geocode_validates_coordinates() {
    match gateway_plan(true, "/api/v1/reverse-geocode", "lat=59.33&lon=18.06") {
        GatewayStep::CallBackend { line, finish } => {
            assert_eq!(finish, FinishKind::ReverseGeocodeJson);
            assert_eq!(line, "{\"cmd\":\"reverse_geocode\",\"lat\":59.33,\"lon\":18.06}");
        }
        other => panic!("expected a backend call, got {:?}", other),
    }
    match gateway_plan(true, "/api/v1/reverse-geocode", "lon=18.06") {
        GatewayStep::Respond { response } => {
            let body = String::from_utf8(response.body).unwrap();
            assert!(body.contains("Missing or invalid 'lat' parameter"));
        }
        other => panic!("expected a rejection, got {:?}", other),
    }
    match gateway_plan(true, "/api/v1/reverse-geocode", "lat=abc&lon=18.06") {
        GatewayStep::Respond { response } => {
            let body = String::from_utf8(response.body).unwrap();
            assert!(body.contains("Missing or invalid 'lat' parameter"));
        }
        other => panic!("expected a rejection, got {:?}", other),
    }
    match gateway_plan(true, "/api/v1/reverse-geocode", "lat=59.33&lon=") {
        GatewayStep::Respond { response } => {
            let body = String::from_utf8(response.body).unwrap();
            assert!(body.contains("Missing or invalid 'lon' parameter"));
        }
        other => panic!("expected a rejection, got {:?}", other),
    }
}

#[test]
fn plan_passthrough_forwards_query_bytes() {
    let query = "fromPlace=sweden_1617&toPlace=sweden_765&time=2026-02-07T08%3A00%3A00Z";
    match gateway_plan(true, "/api/v1/plan", query) {
        GatewayStep::CallBackend { line, finish } => {
            assert_eq!(finish, FinishKind::PassthroughJson);
            assert_eq!(
                line,
                api_get_command(
                    "/api/v1/plan?fromPlace=sweden_1617&toPlace=sweden_765&time=2026-02-07T08%3A00%3A00Z"
                )
            );
        }
        other => panic!("expected a backend call, got {:?}", other),
    }
}

#[test]
fn plan_glyphs_forwards_the_path() {
    match gateway_plan(true, "/tiles/glyphs/Roboto/0-255.pbf", "") {
        GatewayStep::CallBackend { line, finish } => {
            assert_eq!(finish, FinishKind::GlyphBinary);
            assert_eq!(line, glyph_command("/tiles/glyphs/Roboto/0-255.pbf"));
        }
        other => panic!("expected a backend call, got {:?}", other),
    }
}

#[test]
fn plan_tiles_parses_coordinates() {
    match gateway_plan(true, "/api/v1/tiles/2/3/4.mvt", "") {
        GatewayStep::CallBackend { line, finish } => {
            assert_eq!(finish, FinishKind::TileBinary);
            assert_eq!(line, tile_command(2, 3, 4));
            assert_eq!(line, "{\"cmd\":\"get_tile\",\"z\":2,\"x\":3,\"y\":4}");
        }
        other => panic!("expected a backend call, got {:?}", other),
    }
    match gateway_plan(true, "/tiles/14/-2/8.mvt", "") {
        GatewayStep::CallBackend { line, .. } => {
            assert_eq!(line, tile_command(14, -2, 8));
        }
        other => panic!("expected a backend call, got {:?}", other),
    }
}

#[test]
fn plan_tiles_with_bad_coordinates_degrades_to_empty_tile() {
    match gateway_plan(true, "/api/v1/tiles/a/b/c.mvt", "") {
        GatewayStep::Respond { response } => {
            assert_eq!(response.status, 200);
            assert_eq!(response.content_type, "application/vnd.mapbox-vector-tile");
            assert!(response.body.is_empty());
        }
        other => panic!("expected an empty tile, got {:?}", other),
    }
}

#[test]
fn plan_debug_transfers_is_fixed_empty_array() {
    match gateway_plan(true, "/api/debug/transfers", "") {
        GatewayStep::Respond { response } => {
            assert_eq!(response.status, 200);
            assert_eq!(response.content_type, "application/json");
            assert_eq!(String::from_utf8(response.body).unwrap(), "[]");
        }
        other => panic!("expected an immediate response, got {:?}", other),
    }
}

#[test]
fn plan_unknown_endpoint_is_404() {
    match gateway_plan(true, "/api/v9/nonsense", "") {
        GatewayStep::Respond { response } => {
            assert_eq!(response.status, 404);
            let body = String::from_utf8(response.body).unwrap();
            assert!(body.contains("Unknown endpoint: /api/v9/nonsense"));
            assert!(body.contains("\"stage\":\"endpoint\""));
        }
        other => panic!("expected a rejection, got {:?}", other),
    }
}

#[test]
fn finish_passthrough_returns_backend_json_verbatim() {
    let line = "{\"status\":\"ok\",\"data\":{\"routes\":[1,2]}}".to_string();
    let r = gateway_finish("/api/v1/plan", FinishKind::PassthroughJson, Ok(line));
    assert_eq!(r.status, 200);
    assert_eq!(r.content_type, "application/json");
    assert_eq!(String::from_utf8(r.body).unwrap(), "{\"routes\":[1,2]}");
}

#[test]
fn finish_passthrough_serializes_the_data_payload() {
    // The body is exactly the envelope's data field, reserialized without
    // the envelope around it.
    let line = "{ \"status\" : \"ok\", \"data\" : {\"a\": 1, \"b\": [true, null]} }".to_string();
    let r = gateway_finish("/api/v1/plan", FinishKind::PassthroughJson, Ok(line));
    assert_eq!(r.status, 200);
    assert_eq!(String::from_utf8(r.body).unwrap(), "{\"a\":1,\"b\":[true,null]}");
}

#[test]
fn finish_passthrough_surfaces_backend_error() {
    let line = "{\"status\":\"error\",\"message\":\"unknown endpoint: /api/v1/plan\"}".to_string();
    let r = gateway_finish("/api/v1/plan", FinishKind::PassthroughJson, Ok(line));
    assert_eq!(r.status, 404);
    let body = String::from_utf8(r.body).unwrap();
    assert!(body.contains("unknown endpoint: /api/v1/plan"));
}

#[test]
fn finish_passthrough_flags_corrupt_lines() {
    let r = gateway_finish(
        "/api/v1/plan",
        FinishKind::PassthroughJson,
        Ok("not json at all".to_string()),
    );
    assert_eq!(r.status, 502);
    let body = String::from_utf8(r.body).unwrap();
    assert!(body.contains("Invalid IPC JSON response"));
    assert!(body.contains("not json at all"));
}

#[test]
fn finish_passthrough_maps_transport_failure() {
    let r = gateway_finish(
        "/api/v1/plan",
        FinishKind::PassthroughJson,
        Err(IpcError::NotInitialized),
    );
    assert_eq!(r.status, 503);
}

#[test]
fn legacy_handlers_stay_unused() {
    assert!(handle_trip().is_err());
    assert!(handle_stoptimes().is_err());
    assert!(handle_map_trips().is_err());
    assert!(handle_map_initial().is_err());
    assert!(handle_map_stops().is_err());
    assert!(handle_map_levels().is_err());
    assert!(handle_one_to_many().is_err());
    assert!(handle_one_to_all().is_err());
    assert!(handle_rentals().is_err());
    let (body, content_type) = handle_debug_transfers().unwrap();
    assert_eq!(body, b"[]");
    assert_eq!(content_type, "application/json");
}
