//! Correction rules: deterministic, per-record transformations applied
//! to flagged records.
//!
//! Calendar synthesis reassigns a misattributed late-night trip to a
//! fresh calendar rather than mutating the shared one; shape detachment
//! clears a trip's reference to a broken shape; coordinate override
//! replaces stale stop data; rebranding rewrites three route fields in
//! place.

use crate::config::{spec_find_override, spec_find_rule, find_override, find_rule, Config, ConfigV};
use crate::detect::{
    spec_shape_broken, spec_trip_err, spec_trip_to_fix, trip_to_fix, jump_exceeds,
};
use crate::model::{
    find_calendar, find_route, spec_find_calendar, spec_find_route, Calendar, CalendarV, Feed,
    FeedV, Route, RouteV, Stop, StopV, Trip, TripV,
};
use crate::strutil::{contains_str, str_eq};
use vstd::prelude::*;
use vstd::string::StringExecFns;

verus! {

/// Clones an optional string.
pub fn clone_opt_string(s: &Option<String>) -> (r: Option<String>)
    ensures
        r == *s,
{
    match s {
        Some(x) => Some(x.clone()),
        None => None,
    }
}

/// The deterministic id of a synthesized calendar: a prefix no upstream
/// id uses, the trip short name, and the trip id.
pub open spec fn spec_synth_cal_id(short_name: Seq<char>, trip_id: Seq<char>) -> Seq<char> {
    "catenary-"@ + short_name + "-"@ + trip_id
}

/// The calendar synthesized for one trip: fresh id, day flags from the
/// rule, validity dates copied from the original calendar.
pub open spec fn spec_synth_calendar(
    rule: crate::config::CalendarRuleV,
    trip_id: Seq<char>,
    orig: CalendarV,
) -> CalendarV {
    CalendarV {
        id: spec_synth_cal_id(rule.trip_short_name, trip_id),
        monday: rule.monday,
        tuesday: rule.tuesday,
        wednesday: rule.wednesday,
        thursday: rule.thursday,
        friday: rule.friday,
        saturday: rule.saturday,
        sunday: rule.sunday,
        start_date: orig.start_date,
        end_date: orig.end_date,
    }
}

/// The synthesized calendar for a trip short name, or `None` where no
/// rule defines a fix.
pub open spec fn spec_make_calendar(
    rules: Seq<crate::config::CalendarRuleV>,
    trip_id: Seq<char>,
    short_name: Seq<char>,
    orig: CalendarV,
) -> Option<CalendarV> {
    match spec_find_rule(rules, short_name) {
        None => None,
        Some(rule) => Some(spec_synth_calendar(rule, trip_id, orig)),
    }
}

/// Synthesizes the corrected calendar for a trip, as
/// `spec_make_calendar` says: day flags from the configured rule for
/// the short name, dates copied from the trip's original calendar, and
/// the deterministic `catenary-` id.
pub fn make_calendar_for_trip_short_name(
    cfg: &Config,
    trip_id: &str,
    trip_short_name: &str,
    calendar: &Calendar,
) -> (r: Option<Calendar>)
    ensures
        r.deep_view() == spec_make_calendar(
            cfg.deep_view().calendar_rules,
            trip_id@,
            trip_short_name@,
            calendar.deep_view(),
        ),
{
    match find_rule(&cfg.calendar_rules, trip_short_name) {
        None => None,
        Some(rule) => {
            let mut id: String = "catenary-".to_owned();
            id.append(trip_short_name);
            id.append("-");
            id.append(trip_id);
            let out = Calendar {
                id,
                monday: rule.monday,
                tuesday: rule.tuesday,
                wednesday: rule.wednesday,
                thursday: rule.thursday,
                friday: rule.friday,
                saturday: rule.saturday,
                sunday: rule.sunday,
                start_date: calendar.start_date,
                end_date: calendar.end_date,
            };
            proof {
                crate::model::lemma_find_by_some(
                    cfg.deep_view().calendar_rules,
                    crate::config::rule_key(),
                    trip_short_name@,
                );
                assert(rule.deep_view().trip_short_name == trip_short_name@);
                assert(out.deep_view() =~= spec_synth_calendar(
                    rule.deep_view(),
                    trip_id@,
                    calendar.deep_view(),
                ));
            }
            Some(out)
        },
    }
}

/// A rebranded route: id, agency and type kept, names and color
/// replaced by the configured values.
pub open spec fn spec_rebrand_route(c: ConfigV, r: RouteV) -> RouteV {
    RouteV {
        id: r.id,
        agency_id: r.agency_id,
        short_name: c.rebrand_short_name,
        long_name: c.rebrand_long_name,
        route_type: r.route_type,
        color: c.rebrand_color,
    }
}

/// Rebrands one route, as `spec_rebrand_route` says.
pub fn rebrand_route(cfg: &Config, route: &Route) -> (r: Route)
    ensures
        r.deep_view() == spec_rebrand_route(cfg.deep_view(), route.deep_view()),
{
    let r = Route {
        id: route.id.clone(),
        agency_id: clone_opt_string(&route.agency_id),
        short_name: cfg.rebrand_short_name.clone(),
        long_name: cfg.rebrand_long_name.clone(),
        route_type: route.route_type,
        color: cfg.rebrand_color.clone(),
    };
    proof {
        assert(r.deep_view() =~= spec_rebrand_route(cfg.deep_view(), route.deep_view()));
    }
    r
}

/// A stop after coordinate override: name and coordinates from the
/// first matching override, everything else unchanged.
pub open spec fn spec_override_stop(c: ConfigV, s: StopV) -> StopV {
    match spec_find_override(c.stop_overrides, s.id) {
        None => s,
        Some(o) => StopV {
            id: s.id,
            name: o.name,
            lat_e6: o.lat_e6,
            lon_e6: o.lon_e6,
            timezone: s.timezone,
        },
    }
}

/// Applies the configured coordinate override to one stop, as
/// `spec_override_stop` says.
pub fn override_stop(cfg: &Config, stop: &Stop) -> (r: Stop)
    ensures
        r.deep_view() == spec_override_stop(cfg.deep_view(), stop.deep_view()),
{
    let r = match find_override(&cfg.stop_overrides, stop.id.as_str()) {
        None => Stop {
            id: stop.id.clone(),
            name: stop.name.clone(),
            lat_e6: stop.lat_e6,
            lon_e6: stop.lon_e6,
            timezone: clone_opt_string(&stop.timezone),
        },
        Some(o) => Stop {
            id: stop.id.clone(),
            name: o.name.clone(),
            lat_e6: o.lat_e6,
            lon_e6: o.lon_e6,
            timezone: clone_opt_string(&stop.timezone),
        },
    };
    proof {
        assert(r.deep_view() =~= spec_override_stop(cfg.deep_view(), stop.deep_view()));
    }
    r
}

/// Whether some shape with the given id is broken, as
/// `spec_shape_broken` says.
pub fn shape_broken(feed: &Feed, cfg: &Config, sid: &str) -> (r: bool)
    ensures
        r == spec_shape_broken(feed.deep_view(), cfg.deep_view(), sid@),
{
    let ghost fv = feed.deep_view();
    let mut i: usize = 0;
    while i < feed.shapes.len()
        invariant
            0 <= i <= feed.shapes.len(),
            fv == feed.deep_view(),
            forall|k: int|
                0 <= k < i ==> !(fv.shapes[k].id == sid@ && jump_exceeds(
                    #[trigger] fv.shapes[k],
                    cfg.deep_view().jump_threshold_e6 as int,
                )),
        decreases feed.shapes.len() - i,
    {
        if str_eq(feed.shapes[i].id.as_str(), sid) && crate::detect::shape_jump_exceeds(
            &feed.shapes[i],
            cfg.jump_threshold_e6,
        ) {
            assert(fv.shapes[i as int].id == sid@);
            return true;
        }
        i += 1;
    }
    false
}

/// Whether the trip's shape reference is to be cleared: its route's
/// long name is in the blanket denylist, or the shape is broken.
pub open spec fn spec_trip_shape_cleared(f: FeedV, c: ConfigV, t: TripV) -> bool {
    &&& t.shape_id matches Some(sid)
    &&& {
        ||| {
            &&& spec_find_route(f.routes, t.route_id) matches Some(r)
            &&& c.shape_denylist_route_long_names.contains(r.long_name)
        }
        ||| spec_shape_broken(f, c, sid)
    }
}

/// Whether the trip loses its shape reference, as
/// `spec_trip_shape_cleared` says.
pub fn trip_shape_cleared(feed: &Feed, cfg: &Config, t: &Trip) -> (r: bool)
    ensures
        r == spec_trip_shape_cleared(feed.deep_view(), cfg.deep_view(), t.deep_view()),
{
    match &t.shape_id {
        None => false,
        Some(sid) => {
            let denylisted = match find_route(&feed.routes, t.route_id.as_str()) {
                Some(route) => contains_str(
                    &cfg.shape_denylist_route_long_names,
                    route.long_name.as_str(),
                ),
                None => false,
            };
            if denylisted {
                true
            } else {
                shape_broken(feed, cfg, sid.as_str())
            }
        },
    }
}

/// The calendar synthesized for a trip in the correction set, or `None`
/// where the trip is not corrected or no rule defines a fix.
pub open spec fn spec_trip_synth(f: FeedV, c: ConfigV, t: TripV) -> Option<CalendarV> {
    if spec_trip_to_fix(f, c, t) && t.trip_short_name is Some && spec_find_calendar(
        f.calendars,
        t.service_id,
    ) is Some {
        spec_make_calendar(
            c.calendar_rules,
            t.id,
            t.trip_short_name.unwrap(),
            spec_find_calendar(f.calendars, t.service_id).unwrap(),
        )
    } else {
        None
    }
}

/// The corrected form of a kept trip: shape reference cleared where
/// flagged, service id moved to the synthesized calendar where one is
/// made, everything else unchanged.
pub open spec fn spec_fix_trip(f: FeedV, c: ConfigV, t: TripV) -> TripV {
    TripV {
        id: t.id,
        route_id: t.route_id,
        service_id: match spec_trip_synth(f, c, t) {
            Some(cal) => cal.id,
            None => t.service_id,
        },
        shape_id: if spec_trip_shape_cleared(f, c, t) {
            None
        } else {
            t.shape_id
        },
        trip_short_name: t.trip_short_name,
        trip_headsign: t.trip_headsign,
    }
}

/// Applies shape detachment and calendar synthesis to one trip, as
/// `spec_fix_trip` and `spec_trip_synth` say; returns the corrected
/// trip and the synthesized calendar, if any.
pub fn fix_trip(feed: &Feed, cfg: &Config, t: &Trip) -> (r: (Trip, Option<Calendar>))
    requires
        spec_trip_err(feed.deep_view(), t.deep_view()) is None,
    ensures
        r.0.deep_view() == spec_fix_trip(feed.deep_view(), cfg.deep_view(), t.deep_view()),
        r.1.deep_view() == spec_trip_synth(feed.deep_view(), cfg.deep_view(), t.deep_view()),
{
    let new_shape: Option<String> = if trip_shape_cleared(feed, cfg, t) {
        None
    } else {
        clone_opt_string(&t.shape_id)
    };
    let synth: Option<Calendar> = if trip_to_fix(feed, cfg, t) {
        match &t.trip_short_name {
            Some(sn) => {
                let cal = match find_calendar(&feed.calendars, t.service_id.as_str()) {
                    Some(c) => c,
                    None => {
                        proof {
                            assert(false);
                        }
                        unreached()
                    },
                };
                make_calendar_for_trip_short_name(cfg, t.id.as_str(), sn.as_str(), cal)
            },
            None => None,
        }
    } else {
        None
    };
    let new_service: String = match &synth {
        Some(c2) => c2.id.clone(),
        None => t.service_id.clone(),
    };
    let fixed = Trip {
        id: t.id.clone(),
        route_id: t.route_id.clone(),
        service_id: new_service,
        shape_id: new_shape,
        trip_short_name: clone_opt_string(&t.trip_short_name),
        trip_headsign: clone_opt_string(&t.trip_headsign),
    };
    proof {
        assert(fixed.deep_view() =~= spec_fix_trip(
            feed.deep_view(),
            cfg.deep_view(),
            t.deep_view(),
        ));
    }
    (fixed, synth)
}

} // verus!
