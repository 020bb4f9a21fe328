//! End-to-end tests of the correction pipeline on small feeds.

use feedfix::config::{CalendarRule, Config, StopOverride};
use feedfix::detect::{
    detect_broken_shapes, detect_midnight_crossing, detect_phantom_trips, detect_rebrand_routes,
    detect_superseded_agencies, detect_superseded_routes, PipelineError,
};
use feedfix::model::{
    Agency, Calendar, Feed, GtfsDate, Route, RouteType, Shape, ShapePoint, Stop, StopTime, Trip,
};
use feedfix::pipeline::run_pipeline;

fn agency(id: &str, name: &str) -> Agency {
    Agency { id: Some(id.to_string()), name: name.to_string() }
}

fn route(id: &str, agency_id: &str, long_name: &str, route_type: RouteType) -> Route {
    Route {
        id: id.to_string(),
        agency_id: Some(agency_id.to_string()),
        short_name: String::new(),
        long_name: long_name.to_string(),
        route_type,
        color: "FFFFFF".to_string(),
    }
}

fn calendar(id: &str) -> Calendar {
    Calendar {
        id: id.to_string(),
        monday: true,
        tuesday: true,
        wednesday: true,
        thursday: true,
        friday: true,
        saturday: true,
        sunday: true,
        start_date: GtfsDate { year: 2024, month: 1, day: 1 },
        end_date: GtfsDate { year: 2024, month: 12, day: 31 },
    }
}

fn trip(id: &str, route_id: &str, service_id: &str, short_name: Option<&str>) -> Trip {
    Trip {
        id: id.to_string(),
        route_id: route_id.to_string(),
        service_id: service_id.to_string(),
        shape_id: None,
        trip_short_name: short_name.map(|s| s.to_string()),
        trip_headsign: Some("Somewhere".to_string()),
    }
}

fn stop_time(trip_id: &str, stop_id: &str, departure: u32, sequence: u32) -> StopTime {
    StopTime {
        trip_id: trip_id.to_string(),
        stop_id: stop_id.to_string(),
        departure_time: departure,
        sequence,
    }
}

fn stop(id: &str, timezone: Option<&str>) -> Stop {
    Stop {
        id: id.to_string(),
        name: format!("Stop {}", id),
        lat_e6: 40_000_000,
        lon_e6: -100_000_000,
        timezone: timezone.map(|s| s.to_string()),
    }
}

/// A feed with one Eastern rail trip: never flagged, passes unchanged.
fn base_feed() -> Feed {
    Feed {
        agencies: vec![agency("A1", "Amtrak")],
        routes: vec![route("R1", "A1", "Empire Service", RouteType::Rail)],
        calendars: vec![calendar("C1")],
        trips: vec![trip("T1", "R1", "C1", Some("100"))],
        stop_times: vec![stop_time("T1", "S1", 30000, 1)],
        stops: vec![stop("S1", Some("America/New_York"))],
        shapes: vec![],
    }
}

#[test]
fn eastern_trip_passes_unchanged() {
    let feed = base_feed();
    let out = run_pipeline(&feed, &Config::amtrak()).unwrap();
    assert_eq!(out.trips, feed.trips);
    assert_eq!(out.agencies, feed.agencies);
    assert_eq!(out.routes, feed.routes);
    assert_eq!(out.stop_times, feed.stop_times);
    assert_eq!(out.stops, feed.stops);
    assert_eq!(out.calendars, feed.calendars);
    assert!(out.diagnostics.broken_shapes.is_empty());
    assert!(out.diagnostics.midnight_exempt.is_empty());
    assert!(out.diagnostics.midnight_unfixed.is_empty());
}

#[test]
fn pipeline_is_deterministic() {
    let mut feed = base_feed();
    feed.trips.push(trip("T2", "R1", "C1", Some("2")));
    feed.stop_times.push(stop_time("T2", "S2", 3600, 1));
    feed.stops.push(stop("S2", Some("America/Denver")));
    let cfg = Config::amtrak();
    let out1 = run_pipeline(&feed, &cfg).unwrap();
    let out2 = run_pipeline(&feed, &cfg).unwrap();
    assert_eq!(out1, out2);
}

#[test]
fn mountain_zone_trip_at_one_hour_is_flagged() {
    let mut feed = base_feed();
    feed.trips = vec![trip("T2", "R1", "C1", Some("2"))];
    feed.stop_times = vec![stop_time("T2", "S2", 3600, 1)];
    feed.stops.push(stop("S2", Some("America/Denver")));
    let flags = detect_midnight_crossing(&feed, &Config::amtrak()).unwrap();
    assert_eq!(flags.to_fix, vec!["T2".to_string()]);
    assert!(flags.exempt.is_empty());
}

#[test]
fn mountain_zone_trip_at_two_and_a_half_hours_is_not_flagged() {
    let mut feed = base_feed();
    feed.trips = vec![trip("T2", "R1", "C1", Some("2"))];
    feed.stop_times = vec![stop_time("T2", "S2", 9000, 1)];
    feed.stops.push(stop("S2", Some("America/Denver")));
    let flags = detect_midnight_crossing(&feed, &Config::amtrak()).unwrap();
    assert!(flags.to_fix.is_empty());
    assert!(flags.exempt.is_empty());
}

#[test]
fn mountain_zone_boundary_is_inclusive() {
    // exactly 2 * 3600 seconds: still flagged
    let mut feed = base_feed();
    feed.trips = vec![trip("T2", "R1", "C1", Some("2"))];
    feed.stop_times = vec![stop_time("T2", "S2", 7200, 1)];
    feed.stops.push(stop("S2", Some("America/Denver")));
    let flags = detect_midnight_crossing(&feed, &Config::amtrak()).unwrap();
    assert_eq!(flags.to_fix, vec!["T2".to_string()]);
}

#[test]
fn central_and_pacific_thresholds() {
    let mut feed = base_feed();
    feed.trips = vec![
        trip("TC", "R1", "C1", Some("100")),
        trip("TP", "R1", "C1", Some("100")),
    ];
    feed.stop_times = vec![stop_time("TC", "SC", 3601, 1), stop_time("TP", "SP", 10800, 1)];
    feed.stops.push(stop("SC", Some("America/Chicago")));
    feed.stops.push(stop("SP", Some("America/Los_Angeles")));
    let flags = detect_midnight_crossing(&feed, &Config::amtrak()).unwrap();
    // Central threshold is 3600: 3601 escapes; Pacific is 10800: flagged.
    assert_eq!(flags.to_fix, vec!["TP".to_string()]);
}

#[test]
fn exempt_route_is_reported_not_corrected() {
    let mut feed = base_feed();
    feed.routes = vec![route("R1", "A1", "Pacific Surfliner", RouteType::Rail)];
    feed.trips = vec![trip("T2", "R1", "C1", Some("2"))];
    feed.stop_times = vec![stop_time("T2", "S2", 3600, 1)];
    feed.stops.push(stop("S2", Some("America/Los_Angeles")));
    let cfg = Config::amtrak();
    let flags = detect_midnight_crossing(&feed, &cfg).unwrap();
    assert!(flags.to_fix.is_empty());
    assert_eq!(flags.exempt, vec!["T2".to_string()]);
    let out = run_pipeline(&feed, &cfg).unwrap();
    assert_eq!(out.trips[0].service_id, "C1");
    assert_eq!(out.diagnostics.midnight_exempt, vec!["T2".to_string()]);
    assert_eq!(out.calendars.len(), 1);
}

#[test]
fn flagged_trip_gets_synthesized_calendar() {
    let mut feed = base_feed();
    feed.trips = vec![trip("T2", "R1", "C1", Some("2"))];
    feed.stop_times = vec![stop_time("T2", "S2", 3600, 1)];
    feed.stops.push(stop("S2", Some("America/Denver")));
    let out = run_pipeline(&feed, &Config::amtrak()).unwrap();
    assert_eq!(out.trips[0].service_id, "catenary-2-T2");
    assert_eq!(out.calendars.len(), 2);
    let synth = &out.calendars[1];
    assert_eq!(synth.id, "catenary-2-T2");
    assert!(synth.monday);
    assert!(!synth.tuesday);
    assert!(!synth.wednesday);
    assert!(synth.thursday);
    assert!(!synth.friday);
    assert!(synth.saturday);
    assert!(!synth.sunday);
    assert_eq!(synth.start_date, feed.calendars[0].start_date);
    assert_eq!(synth.end_date, feed.calendars[0].end_date);
    // the original calendar is still emitted, unchanged
    assert_eq!(out.calendars[0], feed.calendars[0]);
    assert!(out.diagnostics.midnight_unfixed.is_empty());
}

#[test]
fn flagged_trip_without_rule_is_reported_unfixed() {
    let mut feed = base_feed();
    feed.trips = vec![trip("T2", "R1", "C1", Some("999"))];
    feed.stop_times = vec![stop_time("T2", "S2", 3600, 1)];
    feed.stops.push(stop("S2", Some("America/Denver")));
    let out = run_pipeline(&feed, &Config::amtrak()).unwrap();
    assert_eq!(out.trips[0].service_id, "C1");
    assert_eq!(out.calendars.len(), 1);
    assert_eq!(out.diagnostics.midnight_unfixed, vec!["T2".to_string()]);
}

#[test]
fn broken_shape_is_detached_and_good_shape_kept() {
    let mut feed = base_feed();
    feed.shapes = vec![
        Shape {
            id: "SH_BAD".to_string(),
            points: vec![
                ShapePoint { lat_e6: 0, lon_e6: 0 },
                ShapePoint { lat_e6: 200_000, lon_e6: 0 },
            ],
        },
        Shape {
            id: "SH_GOOD".to_string(),
            points: vec![
                ShapePoint { lat_e6: 0, lon_e6: 0 },
                ShapePoint { lat_e6: 100_000, lon_e6: 50_000 },
            ],
        },
    ];
    feed.trips = vec![
        Trip { shape_id: Some("SH_BAD".to_string()), ..trip("T1", "R1", "C1", Some("100")) },
        Trip { shape_id: Some("SH_GOOD".to_string()), ..trip("T2", "R1", "C1", Some("100")) },
    ];
    feed.stop_times = vec![stop_time("T1", "S1", 30000, 1), stop_time("T2", "S1", 30000, 1)];
    let cfg = Config::amtrak();
    assert_eq!(detect_broken_shapes(&feed.shapes, &cfg), vec!["SH_BAD".to_string()]);
    let out = run_pipeline(&feed, &cfg).unwrap();
    assert_eq!(out.trips[0].shape_id, None);
    assert_eq!(out.trips[1].shape_id, Some("SH_GOOD".to_string()));
    assert_eq!(out.diagnostics.broken_shapes, vec!["SH_BAD".to_string()]);
}

#[test]
fn threshold_boundary_shape_is_not_broken() {
    // a jump of exactly 0.1 degrees does not exceed the threshold
    let cfg = Config::amtrak();
    let shapes = vec![Shape {
        id: "SH".to_string(),
        points: vec![
            ShapePoint { lat_e6: 0, lon_e6: 0 },
            ShapePoint { lat_e6: 100_000, lon_e6: -100_000 },
        ],
    }];
    assert!(detect_broken_shapes(&shapes, &cfg).is_empty());
}

#[test]
fn denylisted_route_loses_shapes() {
    let mut cfg = Config::amtrak();
    cfg.shape_denylist_route_long_names.push("Empire Service".to_string());
    let mut feed = base_feed();
    feed.shapes = vec![Shape {
        id: "SH_GOOD".to_string(),
        points: vec![ShapePoint { lat_e6: 0, lon_e6: 0 }],
    }];
    feed.trips = vec![Trip {
        shape_id: Some("SH_GOOD".to_string()),
        ..trip("T1", "R1", "C1", Some("100"))
    }];
    let out = run_pipeline(&feed, &cfg).unwrap();
    assert_eq!(out.trips[0].shape_id, None);
}

#[test]
fn agency_removal_cascades() {
    let mut cfg = Config::amtrak();
    cfg.agency_exclude_names.push("OldCo".to_string());
    let feed = Feed {
        agencies: vec![agency("A1", "Amtrak"), agency("A2", "OldCo")],
        routes: vec![
            route("R1", "A1", "Empire Service", RouteType::Rail),
            route("R2", "A2", "Legacy Line", RouteType::Bus),
        ],
        calendars: vec![calendar("C1")],
        trips: vec![trip("T1", "R1", "C1", Some("100")), trip("T2", "R2", "C1", None)],
        stop_times: vec![stop_time("T1", "S1", 30000, 1), stop_time("T2", "S1", 30000, 1)],
        stops: vec![stop("S1", Some("America/New_York"))],
        shapes: vec![],
    };
    let out = run_pipeline(&feed, &cfg).unwrap();
    assert_eq!(detect_superseded_agencies(&feed, &cfg), vec!["OldCo".to_string()]);
    assert_eq!(detect_superseded_routes(&feed, &cfg), vec!["R2".to_string()]);
    assert_eq!(out.agencies.len(), 1);
    assert_eq!(out.agencies[0].id, Some("A1".to_string()));
    assert_eq!(out.routes.len(), 1);
    assert_eq!(out.routes[0].id, "R1");
    assert_eq!(out.trips.len(), 1);
    assert_eq!(out.trips[0].id, "T1");
    assert_eq!(out.stop_times.len(), 1);
    assert_eq!(out.stop_times[0].trip_id, "T1");
}

#[test]
fn route_exclusion_by_long_name_cascades() {
    let mut cfg = Config::amtrak();
    cfg.route_exclude_long_names.push("Legacy Line".to_string());
    let mut feed = base_feed();
    feed.routes.push(route("R2", "A1", "Legacy Line", RouteType::Bus));
    feed.trips.push(trip("T2", "R2", "C1", None));
    feed.stop_times.push(stop_time("T2", "S1", 30000, 1));
    let out = run_pipeline(&feed, &cfg).unwrap();
    assert_eq!(out.routes.len(), 1);
    assert_eq!(out.trips.len(), 1);
    assert_eq!(out.stop_times.len(), 1);
    // the agency itself stays
    assert_eq!(out.agencies.len(), 1);
}

#[test]
fn rebrand_overrides_names_and_color_only() {
    let mut cfg = Config::amtrak();
    cfg.rebrand_agency_name = Some("OldBrand".to_string());
    cfg.rebrand_short_name = "NB".to_string();
    cfg.rebrand_long_name = "New Brand".to_string();
    cfg.rebrand_color = "FF0000".to_string();
    let mut feed = base_feed();
    feed.agencies.push(agency("A2", "OldBrand"));
    feed.routes.push(route("R2", "A2", "Old Line", RouteType::Bus));
    feed.trips.push(trip("T2", "R2", "C1", None));
    feed.stop_times.push(stop_time("T2", "S1", 30000, 1));
    let out = run_pipeline(&feed, &cfg).unwrap();
    assert_eq!(detect_rebrand_routes(&feed, &cfg), vec!["R2".to_string()]);
    let r2 = out.routes.iter().find(|r| r.id == "R2").unwrap();
    assert_eq!(r2.agency_id, Some("A2".to_string()));
    assert_eq!(r2.short_name, "NB");
    assert_eq!(r2.long_name, "New Brand");
    assert_eq!(r2.color, "FF0000");
    assert_eq!(r2.route_type, RouteType::Bus);
    // the rebranded route's trips stay
    assert_eq!(out.trips.len(), 2);
}

#[test]
fn phantom_trips_on_rebranded_routes_are_dropped() {
    let mut cfg = Config::amtrak();
    cfg.rebrand_agency_name = Some("OldBrand".to_string());
    cfg.phantom_short_name_prefix = "7".to_string();
    let mut feed = base_feed();
    feed.agencies.push(agency("A2", "OldBrand"));
    feed.routes.push(route("R2", "A2", "Old Line", RouteType::Bus));
    feed.trips.push(trip("T2", "R2", "C1", Some("70")));
    feed.trips.push(trip("T3", "R2", "C1", Some("80")));
    feed.stop_times.push(stop_time("T2", "S1", 30000, 1));
    feed.stop_times.push(stop_time("T3", "S1", 30000, 1));
    let out = run_pipeline(&feed, &cfg).unwrap();
    assert_eq!(detect_phantom_trips(&feed, &cfg), vec!["T2".to_string()]);
    let ids: Vec<&str> = out.trips.iter().map(|t| t.id.as_str()).collect();
    assert_eq!(ids, vec!["T1", "T3"]);
    let st_ids: Vec<&str> = out.stop_times.iter().map(|st| st.trip_id.as_str()).collect();
    assert_eq!(st_ids, vec!["T1", "T3"]);
    // a phantom prefix on a non-rebranded route's trip does nothing
    assert!(out.trips.iter().any(|t| t.id == "T3"));
}

#[test]
fn stop_override_replaces_name_and_coordinates() {
    let mut cfg = Config::amtrak();
    cfg.stop_overrides.push(StopOverride {
        stop_id: "S1".to_string(),
        name: "Corrected Name".to_string(),
        lat_e6: 41_123_456,
        lon_e6: -73_654_321,
    });
    let mut feed = base_feed();
    feed.stops.push(stop("S9", Some("America/New_York")));
    let out = run_pipeline(&feed, &cfg).unwrap();
    assert_eq!(out.stops.len(), 2);
    assert_eq!(out.stops[0].id, "S1");
    assert_eq!(out.stops[0].name, "Corrected Name");
    assert_eq!(out.stops[0].lat_e6, 41_123_456);
    assert_eq!(out.stops[0].lon_e6, -73_654_321);
    assert_eq!(out.stops[0].timezone, Some("America/New_York".to_string()));
    assert_eq!(out.stops[1], feed.stops[1]);
}

#[test]
fn missing_route_is_a_referential_error() {
    let mut feed = base_feed();
    feed.trips = vec![trip("T1", "R_MISSING", "C1", Some("100"))];
    let err = run_pipeline(&feed, &Config::amtrak()).unwrap_err();
    assert_eq!(err, PipelineError::Referential("R_MISSING".to_string()));
}

#[test]
fn missing_calendar_is_a_referential_error() {
    let mut feed = base_feed();
    feed.trips = vec![trip("T1", "R1", "C_MISSING", Some("100"))];
    let err = run_pipeline(&feed, &Config::amtrak()).unwrap_err();
    assert_eq!(err, PipelineError::Referential("C_MISSING".to_string()));
}

#[test]
fn trip_without_stop_times_is_a_referential_error() {
    let mut feed = base_feed();
    feed.stop_times = vec![];
    let err = run_pipeline(&feed, &Config::amtrak()).unwrap_err();
    assert_eq!(err, PipelineError::Referential("T1".to_string()));
}

#[test]
fn missing_stop_on_rail_trip_is_a_referential_error() {
    let mut feed = base_feed();
    feed.stops = vec![];
    let err = run_pipeline(&feed, &Config::amtrak()).unwrap_err();
    assert_eq!(err, PipelineError::Referential("S1".to_string()));
}

#[test]
fn missing_timezone_on_rail_first_stop_is_a_referential_error() {
    let mut feed = base_feed();
    feed.stops = vec![stop("S1", None)];
    let err = run_pipeline(&feed, &Config::amtrak()).unwrap_err();
    assert_eq!(err, PipelineError::Referential("S1".to_string()));
}

#[test]
fn unsupported_timezone_is_its_own_error() {
    let mut feed = base_feed();
    feed.stops = vec![stop("S1", Some("Europe/Berlin"))];
    let err = run_pipeline(&feed, &Config::amtrak()).unwrap_err();
    assert_eq!(err, PipelineError::UnsupportedTimezone("Europe/Berlin".to_string()));
}

#[test]
fn bus_trips_are_not_checked_for_midnight_crossing() {
    let mut feed = base_feed();
    feed.routes = vec![route("R1", "A1", "City Bus", RouteType::Bus)];
    // the first stop has no timezone: fatal on a rail trip, harmless
    // on a bus
    feed.stops = vec![stop("S1", None)];
    let flags = detect_midnight_crossing(&feed, &Config::amtrak()).unwrap();
    assert!(flags.to_fix.is_empty());
    let out = run_pipeline(&feed, &Config::amtrak()).unwrap();
    assert_eq!(out.trips.len(), 1);
}

#[test]
fn dangling_stop_reference_is_a_referential_error() {
    let mut feed = base_feed();
    feed.routes = vec![route("R1", "A1", "City Bus", RouteType::Bus)];
    feed.stop_times = vec![stop_time("T1", "S_MISSING", 30000, 1)];
    let err = run_pipeline(&feed, &Config::amtrak()).unwrap_err();
    assert_eq!(err, PipelineError::Referential("S_MISSING".to_string()));
}

#[test]
fn first_stop_time_is_chosen_by_sequence() {
    // the table lists the later call first; the detector must use the
    // stop time with the smallest sequence
    let mut feed = base_feed();
    feed.trips = vec![trip("T2", "R1", "C1", Some("2"))];
    feed.stop_times = vec![stop_time("T2", "S1", 50000, 5), stop_time("T2", "S2", 3600, 1)];
    feed.stops.push(stop("S2", Some("America/Denver")));
    let flags = detect_midnight_crossing(&feed, &Config::amtrak()).unwrap();
    assert_eq!(flags.to_fix, vec!["T2".to_string()]);
}

#[test]
fn output_references_always_resolve() {
    let mut cfg = Config::amtrak();
    cfg.agency_exclude_names.push("OldCo".to_string());
    cfg.rebrand_agency_name = Some("OldBrand".to_string());
    cfg.phantom_short_name_prefix = "7".to_string();
    let feed = Feed {
        agencies: vec![agency("A1", "Amtrak"), agency("A2", "OldCo"), agency("A3", "OldBrand")],
        routes: vec![
            route("R1", "A1", "Empire Service", RouteType::Rail),
            route("R2", "A2", "Legacy Line", RouteType::Bus),
            route("R3", "A3", "Old Line", RouteType::Bus),
        ],
        calendars: vec![calendar("C1")],
        trips: vec![
            trip("T1", "R1", "C1", Some("2")),
            trip("T2", "R2", "C1", None),
            trip("T3", "R3", "C1", Some("70")),
            trip("T4", "R3", "C1", Some("80")),
        ],
        stop_times: vec![
            stop_time("T1", "S2", 3600, 1),
            stop_time("T2", "S1", 30000, 1),
            stop_time("T3", "S1", 30000, 1),
            stop_time("T4", "S1", 30000, 1),
        ],
        stops: vec![stop("S1", Some("America/New_York")), stop("S2", Some("America/Denver"))],
        shapes: vec![],
    };
    let out = run_pipeline(&feed, &cfg).unwrap();
    for st in &out.stop_times {
        assert!(out.trips.iter().any(|t| t.id == st.trip_id));
    }
    for t in &out.trips {
        assert!(out.routes.iter().any(|r| r.id == t.route_id));
        assert!(out.calendars.iter().any(|c| c.id == t.service_id));
    }
    // the corrected rail trip moved to its synthesized calendar
    assert_eq!(out.trips[0].service_id, "catenary-2-T1");
    // the excluded agency's trip and the phantom are gone
    let ids: Vec<&str> = out.trips.iter().map(|t| t.id.as_str()).collect();
    assert_eq!(ids, vec!["T1", "T4"]);
}
