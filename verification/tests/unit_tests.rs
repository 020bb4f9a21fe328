//! Unit tests of the correction rules, lookups and emission helpers.

use feedfix::config::Config;
use feedfix::correct::make_calendar_for_trip_short_name;
use feedfix::emit::{calendar_to_string_to_add, date_to_gtfs_str};
use feedfix::model::{find_route, Calendar, GtfsDate, Route, RouteType};
use feedfix::routes_info::{AmtrakRouteInfo, ParentToThrowAWay};
use feedfix::strutil::{contains_str, u32_to_string};

fn calendar_2024(id: &str) -> Calendar {
    Calendar {
        id: id.to_string(),
        monday: false,
        tuesday: true,
        wednesday: true,
        thursday: false,
        friday: true,
        saturday: false,
        sunday: true,
        start_date: GtfsDate { year: 2024, month: 1, day: 1 },
        end_date: GtfsDate { year: 2024, month: 12, day: 31 },
    }
}

#[test]
fn synthesized_calendar_for_short_name_2() {
    let cfg = Config::amtrak();
    let orig = calendar_2024("CAL_ORIG");
    let out = make_calendar_for_trip_short_name(&cfg, "TRIP9", "2", &orig).unwrap();
    assert_eq!(out.id, "catenary-2-TRIP9");
    assert!(out.monday);
    assert!(!out.tuesday);
    assert!(!out.wednesday);
    assert!(out.thursday);
    assert!(!out.friday);
    assert!(out.saturday);
    assert!(!out.sunday);
    assert_eq!(out.start_date, orig.start_date);
    assert_eq!(out.end_date, orig.end_date);
}

#[test]
fn synthesized_calendar_for_short_name_343() {
    let cfg = Config::amtrak();
    let orig = calendar_2024("CAL_ORIG");
    let out = make_calendar_for_trip_short_name(&cfg, "X", "343", &orig).unwrap();
    assert_eq!(out.id, "catenary-343-X");
    assert!(!out.monday && !out.tuesday && !out.wednesday && !out.thursday && !out.friday);
    assert!(out.saturday);
    assert!(!out.sunday);
}

#[test]
fn synthesized_calendar_for_short_name_422() {
    let cfg = Config::amtrak();
    let orig = calendar_2024("CAL_ORIG");
    let out = make_calendar_for_trip_short_name(&cfg, "Y", "422", &orig).unwrap();
    assert_eq!(out.id, "catenary-422-Y");
    assert!(out.monday && out.thursday && out.saturday);
    assert!(!out.tuesday && !out.wednesday && !out.friday && !out.sunday);
}

#[test]
fn no_rule_means_no_synthesized_calendar() {
    let cfg = Config::amtrak();
    let orig = calendar_2024("CAL_ORIG");
    assert!(make_calendar_for_trip_short_name(&cfg, "Z", "999", &orig).is_none());
}

#[test]
fn decimal_rendering() {
    assert_eq!(u32_to_string(0), "0");
    assert_eq!(u32_to_string(7), "7");
    assert_eq!(u32_to_string(12345), "12345");
    assert_eq!(u32_to_string(4294967295), "4294967295");
}

#[test]
fn date_rendering_is_zero_padded() {
    assert_eq!(date_to_gtfs_str(&GtfsDate { year: 2024, month: 1, day: 1 }), "20240101");
    assert_eq!(date_to_gtfs_str(&GtfsDate { year: 2024, month: 12, day: 31 }), "20241231");
    assert_eq!(date_to_gtfs_str(&GtfsDate { year: 999, month: 2, day: 3 }), "09990203");
}

#[test]
fn calendar_line_rendering() {
    let cal = calendar_2024("CAL1");
    assert_eq!(
        calendar_to_string_to_add(&cal),
        "CAL1,false,true,true,false,true,false,true,20240101,20241231"
    );
}

#[test]
fn name_list_membership() {
    let list = vec!["Pacific Surfliner".to_string(), "Empire Service".to_string()];
    assert!(contains_str(&list, "Empire Service"));
    assert!(!contains_str(&list, "Empire"));
    assert!(!contains_str(&list, ""));
}

#[test]
fn route_lookup_finds_by_id() {
    let routes = vec![
        Route {
            id: "R1".to_string(),
            agency_id: None,
            short_name: "1".to_string(),
            long_name: "One".to_string(),
            route_type: RouteType::Rail,
            color: String::new(),
        },
        Route {
            id: "R2".to_string(),
            agency_id: None,
            short_name: "2".to_string(),
            long_name: "Two".to_string(),
            route_type: RouteType::Bus,
            color: String::new(),
        },
    ];
    assert_eq!(find_route(&routes, "R2").unwrap().long_name, "Two");
    assert!(find_route(&routes, "R3").is_none());
}

#[test]
fn route_info_carries_decoded_fields() {
    let parent = ParentToThrowAWay {
        routes_list: vec![AmtrakRouteInfo {
            route_code: "EMP".to_string(),
            city_served: "New York".to_string(),
            route_name: "Empire Service".to_string(),
        }],
    };
    assert_eq!(parent.routes_list.len(), 1);
    assert_eq!(parent.routes_list[0].route_code, "EMP");
    assert_eq!(parent.routes_list[0].city_served, "New York");
    assert_eq!(parent.routes_list[0].route_name, "Empire Service");
}
