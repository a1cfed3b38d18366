//! Route classification: a pure, total function from a request path to the
//! semantic category the gateway dispatches on.

use vstd::prelude::*;
use crate::text::{starts_with, ends_with, starts_with_str, ends_with_str, str_eq};

verus! {

/// Semantic category of an inbound request path.
#[derive(Debug, Clone, Copy, PartialEq, Eq, Structural)]
pub enum RouteKind {
    Geocode,
    ReverseGeocode,
    Passthrough,
    Glyph,
    Tiles,
    DebugTransfers,
    Unknown,
}

/// The category a path classifies to.  Exact matches cover the geocoding and
/// passthrough endpoints across the supported API versions; glyph and tile
/// assets are recognised by path prefix (and `.mvt` suffix); everything else
/// is `Unknown`.
pub open spec fn route_of(p: Seq<char>) -> RouteKind {
    if p == "/api/v1/geocode"@ || p == "/api/v5/geocode"@ {
        RouteKind::Geocode
    } else if p == "/api/v1/reverse-geocode"@ || p == "/api/v5/reverse-geocode"@ {
        RouteKind::ReverseGeocode
    } else if p == "/api/v1/plan"@ || p == "/api/v5/plan"@ || p == "/api/v1/trip"@
        || p == "/api/v5/trip"@ || p == "/api/v1/stoptimes"@ || p == "/api/v4/stoptimes"@
        || p == "/api/v5/stoptimes"@ || p == "/api/v1/map/trips"@ || p == "/api/v4/map/trips"@
        || p == "/api/v5/map/trips"@ || p == "/api/v1/map/initial"@ || p == "/api/v1/map/stops"@
        || p == "/api/v1/map/levels"@ || p == "/api/v1/one-to-many"@ || p == "/api/v1/one-to-all"@
        || p == "/api/experimental/one-to-all"@ || p == "/api/v1/rentals"@
        || p == "/api/v1/map/rentals"@ {
        RouteKind::Passthrough
    } else if starts_with(p, "/tiles/glyphs/"@) {
        RouteKind::Glyph
    } else if starts_with(p, "/api/v1/tiles/"@) || starts_with(p, "/api/v5/tiles/"@)
        || (starts_with(p, "/tiles/"@) && ends_with(p, ".mvt"@)) {
        RouteKind::Tiles
    } else if p == "/api/debug/transfers"@ {
        RouteKind::DebugTransfers
    } else {
        RouteKind::Unknown
    }
}

/// Classify a request path into its route kind.
pub fn classify_path(path: &str) -> (r: RouteKind)
    ensures
        r == route_of(path@),
{
    if str_eq(path, "/api/v1/geocode") || str_eq(path, "/api/v5/geocode") {
        RouteKind::Geocode
    } else if str_eq(path, "/api/v1/reverse-geocode") || str_eq(path, "/api/v5/reverse-geocode") {
        RouteKind::ReverseGeocode
    } else if str_eq(path, "/api/v1/plan") || str_eq(path, "/api/v5/plan")
        || str_eq(path, "/api/v1/trip") || str_eq(path, "/api/v5/trip")
        || str_eq(path, "/api/v1/stoptimes") || str_eq(path, "/api/v4/stoptimes")
        || str_eq(path, "/api/v5/stoptimes") || str_eq(path, "/api/v1/map/trips")
        || str_eq(path, "/api/v4/map/trips") || str_eq(path, "/api/v5/map/trips")
        || str_eq(path, "/api/v1/map/initial") || str_eq(path, "/api/v1/map/stops")
        || str_eq(path, "/api/v1/map/levels") || str_eq(path, "/api/v1/one-to-many")
        || str_eq(path, "/api/v1/one-to-all") || str_eq(path, "/api/experimental/one-to-all")
        || str_eq(path, "/api/v1/rentals") || str_eq(path, "/api/v1/map/rentals") {
        RouteKind::Passthrough
    } else if starts_with_str(path, "/tiles/glyphs/") {
        RouteKind::Glyph
    } else if starts_with_str(path, "/api/v1/tiles/") || starts_with_str(path, "/api/v5/tiles/")
        || (starts_with_str(path, "/tiles/") && ends_with_str(path, ".mvt")) {
        RouteKind::Tiles
    } else if str_eq(path, "/api/debug/transfers") {
        RouteKind::DebugTransfers
    } else {
        RouteKind::Unknown
    }
}

/// Every endpoint of the supported API surface is routed: no path that a
/// client of the map UI uses classifies to `Unknown`.
pub proof fn lemma_supported_api_surface_is_routed()
    ensures
        route_of("/api/v5/plan"@) != RouteKind::Unknown,
        route_of("/api/v1/one-to-many"@) != RouteKind::Unknown,
        route_of("/api/v1/one-to-all"@) != RouteKind::Unknown,
        route_of("/api/v1/reverse-geocode"@) != RouteKind::Unknown,
        route_of("/api/v1/geocode"@) != RouteKind::Unknown,
        route_of("/api/v5/trip"@) != RouteKind::Unknown,
        route_of("/api/v5/stoptimes"@) != RouteKind::Unknown,
        route_of("/api/v5/map/trips"@) != RouteKind::Unknown,
        route_of("/api/v1/map/initial"@) != RouteKind::Unknown,
        route_of("/api/v1/map/stops"@) != RouteKind::Unknown,
        route_of("/api/v1/map/levels"@) != RouteKind::Unknown,
        route_of("/api/v1/rentals"@) != RouteKind::Unknown,
        route_of("/api/debug/transfers"@) != RouteKind::Unknown,
{
    reveal_strlit("/api/v1/geocode");
    reveal_strlit("/api/v5/geocode");
    reveal_strlit("/api/v1/reverse-geocode");
    reveal_strlit("/api/v5/reverse-geocode");
    reveal_strlit("/api/v1/plan");
    reveal_strlit("/api/v5/plan");
    reveal_strlit("/api/v1/trip");
    reveal_strlit("/api/v5/trip");
    reveal_strlit("/api/v1/stoptimes");
    reveal_strlit("/api/v4/stoptimes");
    reveal_strlit("/api/v5/stoptimes");
    reveal_strlit("/api/v1/map/trips");
    reveal_strlit("/api/v4/map/trips");
    reveal_strlit("/api/v5/map/trips");
    reveal_strlit("/api/v1/map/initial");
    reveal_strlit("/api/v1/map/stops");
    reveal_strlit("/api/v1/map/levels");
    reveal_strlit("/api/v1/one-to-many");
    reveal_strlit("/api/v1/one-to-all");
    reveal_strlit("/api/experimental/one-to-all");
    reveal_strlit("/api/v1/rentals");
    reveal_strlit("/api/v1/map/rentals");
    reveal_strlit("/tiles/glyphs/");
    reveal_strlit("/api/v1/tiles/");
    reveal_strlit("/api/v5/tiles/");
    reveal_strlit("/tiles/");
    reveal_strlit(".mvt");
    reveal_strlit("/api/debug/transfers");
    assert("/api/v1/geocode"@.len() == 15);
    assert("/api/v5/geocode"@.len() == 15);
    assert("/api/v1/reverse-geocode"@.len() == 23);
    assert("/api/v5/reverse-geocode"@.len() == 23);
    assert("/api/v5/plan"@.len() == 12);
    assert("/api/v5/trip"@.len() == 12);
    assert("/api/v1/one-to-many"@.len() == 19);
    assert("/api/v1/one-to-all"@.len() == 18);
    assert("/api/v5/stoptimes"@.len() == 17);
    assert("/api/v5/map/trips"@.len() == 17);
    assert("/api/v1/map/initial"@.len() == 19);
    assert("/api/v1/map/stops"@.len() == 17);
    assert("/api/v1/map/levels"@.len() == 18);
    assert("/api/v1/rentals"@.len() == 15);
    assert("/api/debug/transfers"@.len() == 20);
    assert("/api/v1/plan"@.len() == 12);
    assert("/api/v1/trip"@.len() == 12);
    assert("/api/v1/stoptimes"@.len() == 17);
    assert("/api/v4/stoptimes"@.len() == 17);
    assert("/api/v1/map/trips"@.len() == 17);
    assert("/api/v4/map/trips"@.len() == 17);
    assert("/api/experimental/one-to-all"@.len() == 28);
    assert("/api/v1/map/rentals"@.len() == 19);
    assert("/tiles/glyphs/"@.len() == 14);
    assert("/api/v1/tiles/"@.len() == 14);
    assert("/api/v5/tiles/"@.len() == 14);
    assert("/tiles/"@.len() == 7);
    assert(".mvt"@.len() == 4);
    // Same-length literals are told apart by one differing character.
    assert("/api/v1/rentals"@[8] != "/api/v1/geocode"@[8]);
    assert("/api/v1/rentals"@[8] != "/api/v5/geocode"@[8]);
    // The fixed debug path matches none of the asset-path prefixes.
    assert("/api/debug/transfers"@.subrange(0, 14)[1] == "/api/debug/transfers"@[1]);
    assert("/api/debug/transfers"@[1] != "/tiles/glyphs/"@[1]);
    assert("/api/debug/transfers"@.subrange(0, 14) != "/api/v1/tiles/"@) by {
        assert("/api/debug/transfers"@.subrange(0, 14)[5] == "/api/debug/transfers"@[5]);
        assert("/api/debug/transfers"@[5] != "/api/v1/tiles/"@[5]);
    }
    assert("/api/debug/transfers"@.subrange(0, 14) != "/api/v5/tiles/"@) by {
        assert("/api/debug/transfers"@.subrange(0, 14)[5] == "/api/debug/transfers"@[5]);
        assert("/api/debug/transfers"@[5] != "/api/v5/tiles/"@[5]);
    }
    assert("/api/debug/transfers"@.subrange(0, 7) != "/tiles/"@) by {
        assert("/api/debug/transfers"@.subrange(0, 7)[1] == "/api/debug/transfers"@[1]);
        assert("/api/debug/transfers"@[1] != "/tiles/"@[1]);
    }
    assert(route_of("/api/v5/plan"@) == RouteKind::Passthrough);
    assert(route_of("/api/v1/one-to-many"@) == RouteKind::Passthrough);
    assert(route_of("/api/v1/one-to-all"@) == RouteKind::Passthrough);
    assert(route_of("/api/v1/reverse-geocode"@) == RouteKind::ReverseGeocode);
    assert(route_of("/api/v1/geocode"@) == RouteKind::Geocode);
    assert(route_of("/api/v5/trip"@) == RouteKind::Passthrough);
    assert(route_of("/api/v5/stoptimes"@) == RouteKind::Passthrough);
    assert(route_of("/api/v5/map/trips"@) == RouteKind::Passthrough);
    assert(route_of("/api/v1/map/initial"@) == RouteKind::Passthrough);
    assert(route_of("/api/v1/map/stops"@) == RouteKind::Passthrough);
    assert(route_of("/api/v1/map/levels"@) == RouteKind::Passthrough);
    assert(route_of("/api/v1/rentals"@) == RouteKind::Passthrough);
    assert(route_of("/api/debug/transfers"@) == RouteKind::DebugTransfers);
}

} // verus!
