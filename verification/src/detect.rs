//! Anomaly detectors: pure scans of the loaded tables that flag
//! identifiers, and the referential validation that guards them.
//!
//! Each detector is a single pass and mutates nothing.  The per-record
//! predicates here (`spec_route_excluded`, `spec_trip_to_fix`, ...) are
//! the single definition of every rule; the correction pass and the
//! laws all speak of them.

use crate::config::{Config, ConfigV};
use crate::model::{
    find_calendar, find_route, find_stop, first_dangling_stop, first_stop_time_of,
    spec_find_calendar, spec_find_route, spec_find_stop, spec_first_dangling_stop,
    spec_first_stop_time, AgencyV, Feed, FeedV, RouteType, RouteV, Shape, ShapeV, Trip, TripV,
};
use crate::strutil::{contains_str, str_eq, str_starts_with};
use crate::zones::{grace_hours, spec_grace_hours, spec_zone_of, zone_of_name, Zone};
use vstd::math::abs;
use vstd::prelude::*;

verus! {

/// A fatal defect found while scanning the tables.  The pipeline fails
/// closed on these rather than emit an inconsistent feed.
#[derive(Clone, Debug, PartialEq, Eq)]
pub enum PipelineError {
    /// A trip references a route, calendar, stop or first stop time
    /// that its table does not hold; the payload is the offending
    /// identifier.
    Referential(String),
    /// A rail trip's first stop lies in a timezone outside the
    /// enumerated reference set; the payload is the zone name.
    UnsupportedTimezone(String),
}

/// View of a [`PipelineError`].
#[verifier::ext_equal]
pub enum PipelineErrorV {
    Referential(Seq<char>),
    UnsupportedTimezone(Seq<char>),
}

impl DeepView for PipelineError {
    type V = PipelineErrorV;

    open spec fn deep_view(&self) -> PipelineErrorV {
        match self {
            PipelineError::Referential(s) => PipelineErrorV::Referential(s@),
            PipelineError::UnsupportedTimezone(s) => PipelineErrorV::UnsupportedTimezone(s@),
        }
    }
}

/// Whether two consecutive points of the shape differ by more than the
/// threshold in latitude or longitude.
pub open spec fn jump_exceeds(s: ShapeV, threshold: int) -> bool {
    exists|i: int|
        #![trigger s.points[i]]
        0 <= i && i + 1 < s.points.len() && (abs(
            s.points[i].lat_e6 - s.points[i + 1].lat_e6,
        ) > threshold || abs(s.points[i].lon_e6 - s.points[i + 1].lon_e6) > threshold)
}

/// Flags a broken shape with its id.
pub open spec fn broken_flag_fn(c: ConfigV) -> spec_fn(ShapeV) -> Option<Seq<char>> {
    |s: ShapeV| if jump_exceeds(s, c.jump_threshold_e6 as int) {
        Some(s.id)
    } else {
        None
    }
}

/// The ids of the geometrically broken shapes, in table order.
pub open spec fn spec_broken_shape_ids(f: FeedV, c: ConfigV) -> Seq<Seq<char>> {
    f.shapes.filter_map(broken_flag_fn(c))
}

/// Whether some shape with this id is geometrically broken.
pub open spec fn spec_shape_broken(f: FeedV, c: ConfigV, sid: Seq<char>) -> bool {
    exists|i: int|
        0 <= i < f.shapes.len() && f.shapes[i].id == sid && jump_exceeds(
            f.shapes[i],
            c.jump_threshold_e6 as int,
        )
}

/// Membership in the broken-shape id list is exactly brokenness of some
/// shape with that id.
pub proof fn lemma_broken_contains(f: FeedV, c: ConfigV, sid: Seq<char>)
    ensures
        spec_broken_shape_ids(f, c).contains(sid) == spec_shape_broken(f, c, sid),
{
    if spec_broken_shape_ids(f, c).contains(sid) {
        f.shapes.lemma_filter_map_contains(broken_flag_fn(c), sid);
        let t = choose|t: ShapeV| #[trigger]
            f.shapes.contains(t) && broken_flag_fn(c)(t) == Some(sid);
        let i = choose|i: int| 0 <= i < f.shapes.len() && f.shapes[i] == t;
        assert(f.shapes[i].id == sid && jump_exceeds(f.shapes[i], c.jump_threshold_e6 as int));
    }
    if spec_shape_broken(f, c, sid) {
        let i = choose|i: int|
            0 <= i < f.shapes.len() && f.shapes[i].id == sid && jump_exceeds(
                f.shapes[i],
                c.jump_threshold_e6 as int,
            );
        crate::model::lemma_filter_map_in(f.shapes, broken_flag_fn(c), i);
    }
}

/// Whether two consecutive points of the shape jump by more than the
/// threshold, as `jump_exceeds` says.
pub fn shape_jump_exceeds(s: &Shape, threshold: i64) -> (r: bool)
    ensures
        r == jump_exceeds(s.deep_view(), threshold as int),
{
    let ghost dv = s.deep_view();
    if s.points.len() == 0 {
        return false;
    }
    let mut j: usize = 0;
    while j + 1 < s.points.len()
        invariant
            j < s.points.len(),
            dv == s.deep_view(),
            forall|k: int|
                #![trigger dv.points[k]]
                0 <= k && k + 1 <= j ==> !(abs(dv.points[k].lat_e6 - dv.points[k + 1].lat_e6)
                    > threshold as int || abs(dv.points[k].lon_e6 - dv.points[k + 1].lon_e6)
                    > threshold as int),
        decreases s.points.len() - j,
    {
        let a = s.points[j];
        let b = s.points[j + 1];
        let dlat: i128 = (a.lat_e6 as i128) - (b.lat_e6 as i128);
        let dlon: i128 = (a.lon_e6 as i128) - (b.lon_e6 as i128);
        let adlat: i128 = if dlat < 0 {
            -dlat
        } else {
            dlat
        };
        let adlon: i128 = if dlon < 0 {
            -dlon
        } else {
            dlon
        };
        if adlat > threshold as i128 || adlon > threshold as i128 {
            proof {
                assert(abs(dv.points[j as int].lat_e6 - dv.points[j as int + 1].lat_e6) == adlat
                    as int);
                assert(abs(dv.points[j as int].lon_e6 - dv.points[j as int + 1].lon_e6) == adlon
                    as int);
            }
            return true;
        }
        j += 1;
    }
    false
}

/// Scans the shape table and returns the ids of the geometrically
/// broken shapes, in table order.
pub fn detect_broken_shapes(shapes: &Vec<Shape>, cfg: &Config) -> (r: Vec<String>)
    ensures
        r.deep_view() == shapes.deep_view().filter_map(broken_flag_fn(cfg.deep_view())),
{
    let ghost dv = shapes.deep_view();
    let ghost bf = broken_flag_fn(cfg.deep_view());
    let mut out: Vec<String> = Vec::new();
    let mut i: usize = 0;
    while i < shapes.len()
        invariant
            0 <= i <= shapes.len(),
            dv == shapes.deep_view(),
            bf == broken_flag_fn(cfg.deep_view()),
            out.deep_view() == dv.take(i as int).filter_map(bf),
        decreases shapes.len() - i,
    {
        proof {
            dv.lemma_filter_map_take_succ(bf, i as int);
        }
        if shape_jump_exceeds(&shapes[i], cfg.jump_threshold_e6) {
            out.push(shapes[i].id.clone());
        }
        proof {
            assert(out.deep_view() =~= dv.take(i as int + 1).filter_map(bf));
        }
        i += 1;
    }
    proof {
        assert(dv.take(i as int) =~= dv);
    }
    out
}

/// Whether the agency's name stands in the exclusion list.
pub open spec fn spec_agency_excluded(c: ConfigV, a: AgencyV) -> bool {
    c.agency_exclude_names.contains(a.name)
}

/// Whether some agency with this id is excluded by name.
pub open spec fn spec_agency_id_excluded(f: FeedV, c: ConfigV, aid: Seq<char>) -> bool {
    exists|i: int|
        0 <= i < f.agencies.len() && f.agencies[i].id == Some(aid) && spec_agency_excluded(
            c,
            f.agencies[i],
        )
}

/// Whether some agency with this id carries the rebrand agency name.
pub open spec fn spec_agency_id_rebranded(f: FeedV, c: ConfigV, aid: Seq<char>) -> bool {
    &&& c.rebrand_agency_name matches Some(name)
    &&& exists|i: int|
        0 <= i < f.agencies.len() && f.agencies[i].id == Some(aid) && f.agencies[i].name == name
}

/// Whether the route is superseded: its long name is excluded, or its
/// agency is excluded by name.
pub open spec fn spec_route_excluded(f: FeedV, c: ConfigV, r: RouteV) -> bool {
    ||| c.route_exclude_long_names.contains(r.long_name)
    ||| {
        &&& r.agency_id matches Some(aid)
        &&& spec_agency_id_excluded(f, c, aid)
    }
}

/// Whether the route belongs to the agency designated for rebranding.
pub open spec fn spec_route_rebranded(f: FeedV, c: ConfigV, r: RouteV) -> bool {
    &&& r.agency_id matches Some(aid)
    &&& spec_agency_id_rebranded(f, c, aid)
}

/// Whether the trip is a phantom: it runs on a rebranded route and its
/// short name starts with the phantom prefix.
pub open spec fn spec_trip_phantom(f: FeedV, c: ConfigV, t: TripV) -> bool {
    &&& spec_find_route(f.routes, t.route_id) matches Some(r)
    &&& spec_route_rebranded(f, c, r)
    &&& t.trip_short_name matches Some(sn)
    &&& c.phantom_short_name_prefix.is_prefix_of(sn)
}

/// Whether the trip survives exclusion: its route resolves and is not
/// excluded, and the trip is not a phantom.
pub open spec fn spec_trip_kept(f: FeedV, c: ConfigV, t: TripV) -> bool {
    &&& spec_find_route(f.routes, t.route_id) matches Some(r)
    &&& !spec_route_excluded(f, c, r)
    &&& !spec_trip_phantom(f, c, t)
}

/// The fatal defect of one trip, if it has one: a dangling route,
/// calendar or stop reference, a trip with no stop times, a rail trip
/// whose first stop has no timezone, or an unsupported timezone.
pub open spec fn spec_trip_err(f: FeedV, t: TripV) -> Option<PipelineErrorV> {
    if spec_find_route(f.routes, t.route_id) is None {
        Some(PipelineErrorV::Referential(t.route_id))
    } else if spec_find_calendar(f.calendars, t.service_id) is None {
        Some(PipelineErrorV::Referential(t.service_id))
    } else if spec_first_stop_time(f.stop_times, t.id) is None {
        Some(PipelineErrorV::Referential(t.id))
    } else if spec_first_dangling_stop(f.stop_times, f.stops, t.id) is Some {
        Some(
            PipelineErrorV::Referential(
                spec_first_dangling_stop(f.stop_times, f.stops, t.id).unwrap(),
            ),
        )
    } else if spec_find_route(f.routes, t.route_id).unwrap().route_type == RouteType::Rail {
        let st = spec_first_stop_time(f.stop_times, t.id).unwrap();
        if spec_find_stop(f.stops, st.stop_id) is None {
            Some(PipelineErrorV::Referential(st.stop_id))
        } else {
            match spec_find_stop(f.stops, st.stop_id).unwrap().timezone {
                None => Some(
                    PipelineErrorV::Referential(spec_find_stop(f.stops, st.stop_id).unwrap().id),
                ),
                Some(tz) => if spec_zone_of(tz) == Zone::Unsupported {
                    Some(PipelineErrorV::UnsupportedTimezone(tz))
                } else {
                    None
                },
            }
        }
    } else {
        None
    }
}

/// No trip of the feed has a fatal defect.
pub open spec fn spec_feed_valid(f: FeedV) -> bool {
    forall|k: int| 0 <= k < f.trips.len() ==> spec_trip_err(f, #[trigger] f.trips[k]) is None
}

/// Whether the rail trip's first departure falls at or before the grace
/// threshold of its non-reference zone.
pub open spec fn spec_trip_midnight_flagged(f: FeedV, t: TripV) -> bool {
    &&& spec_find_route(f.routes, t.route_id) matches Some(r)
    &&& r.route_type == RouteType::Rail
    &&& spec_first_stop_time(f.stop_times, t.id) matches Some(st)
    &&& spec_find_stop(f.stops, st.stop_id) matches Some(stop)
    &&& stop.timezone matches Some(tz)
    &&& spec_zone_of(tz) != Zone::Eastern
    &&& spec_zone_of(tz) != Zone::Unsupported
    &&& st.departure_time <= spec_grace_hours(spec_zone_of(tz)) * 3600
}

/// Flagged and due for correction: the route is not exempt.
pub open spec fn spec_trip_to_fix(f: FeedV, c: ConfigV, t: TripV) -> bool {
    &&& spec_trip_midnight_flagged(f, t)
    &&& spec_find_route(f.routes, t.route_id) matches Some(r)
    &&& !c.exempt_route_long_names.contains(r.long_name)
}

/// Flagged but exempt: reported, never corrected.
pub open spec fn spec_trip_exempt_flagged(f: FeedV, c: ConfigV, t: TripV) -> bool {
    &&& spec_trip_midnight_flagged(f, t)
    &&& spec_find_route(f.routes, t.route_id) matches Some(r)
    &&& c.exempt_route_long_names.contains(r.long_name)
}

/// Whether some agency with the given id is excluded by name, as
/// `spec_agency_id_excluded` says.
pub fn agency_id_excluded(feed: &Feed, cfg: &Config, aid: &str) -> (r: bool)
    ensures
        r == spec_agency_id_excluded(feed.deep_view(), cfg.deep_view(), aid@),
{
    let ghost fv = feed.deep_view();
    let mut i: usize = 0;
    while i < feed.agencies.len()
        invariant
            0 <= i <= feed.agencies.len(),
            fv == feed.deep_view(),
            forall|k: int|
                0 <= k < i ==> !(fv.agencies[k].id == Some(aid@) && spec_agency_excluded(
                    cfg.deep_view(),
                    fv.agencies[k],
                )),
        decreases feed.agencies.len() - i,
    {
        match &feed.agencies[i].id {
            Some(id) => {
                if str_eq(id.as_str(), aid) && contains_str(
                    &cfg.agency_exclude_names,
                    feed.agencies[i].name.as_str(),
                ) {
                    assert(fv.agencies[i as int].id == Some(aid@));
                    return true;
                }
            },
            None => {},
        }
        i += 1;
    }
    false
}

/// Whether some agency with the given id carries the rebrand name, as
/// `spec_agency_id_rebranded` says.
pub fn agency_id_rebranded(feed: &Feed, cfg: &Config, aid: &str) -> (r: bool)
    ensures
        r == spec_agency_id_rebranded(feed.deep_view(), cfg.deep_view(), aid@),
{
    let ghost fv = feed.deep_view();
    let name = match &cfg.rebrand_agency_name {
        None => {
            return false;
        },
        Some(n) => n,
    };
    let mut i: usize = 0;
    while i < feed.agencies.len()
        invariant
            0 <= i <= feed.agencies.len(),
            fv == feed.deep_view(),
            cfg.deep_view().rebrand_agency_name == Some(name@),
            forall|k: int|
                0 <= k < i ==> !(fv.agencies[k].id == Some(aid@) && fv.agencies[k].name == name@),
        decreases feed.agencies.len() - i,
    {
        match &feed.agencies[i].id {
            Some(id) => {
                if str_eq(id.as_str(), aid) && str_eq(feed.agencies[i].name.as_str(), name.as_str())
                {
                    assert(fv.agencies[i as int].id == Some(aid@));
                    return true;
                }
            },
            None => {},
        }
        i += 1;
    }
    false
}

/// Whether the route is superseded, as `spec_route_excluded` says.
pub fn route_excluded(feed: &Feed, cfg: &Config, route: &crate::model::Route) -> (r: bool)
    ensures
        r == spec_route_excluded(feed.deep_view(), cfg.deep_view(), route.deep_view()),
{
    if contains_str(&cfg.route_exclude_long_names, route.long_name.as_str()) {
        return true;
    }
    match &route.agency_id {
        Some(aid) => agency_id_excluded(feed, cfg, aid.as_str()),
        None => false,
    }
}

/// Whether the route is due for rebranding, as `spec_route_rebranded`
/// says.
pub fn route_rebranded(feed: &Feed, cfg: &Config, route: &crate::model::Route) -> (r: bool)
    ensures
        r == spec_route_rebranded(feed.deep_view(), cfg.deep_view(), route.deep_view()),
{
    match &route.agency_id {
        Some(aid) => agency_id_rebranded(feed, cfg, aid.as_str()),
        None => false,
    }
}

/// Whether the trip is a phantom, as `spec_trip_phantom` says.
pub fn trip_phantom(feed: &Feed, cfg: &Config, t: &Trip) -> (r: bool)
    ensures
        r == spec_trip_phantom(feed.deep_view(), cfg.deep_view(), t.deep_view()),
{
    match find_route(&feed.routes, t.route_id.as_str()) {
        None => false,
        Some(route) => {
            if !route_rebranded(feed, cfg, route) {
                return false;
            }
            match &t.trip_short_name {
                None => false,
                Some(sn) => str_starts_with(
                    sn.as_str(),
                    cfg.phantom_short_name_prefix.as_str(),
                ),
            }
        },
    }
}

/// Whether the trip survives exclusion, as `spec_trip_kept` says.
pub fn trip_kept(feed: &Feed, cfg: &Config, t: &Trip) -> (r: bool)
    ensures
        r == spec_trip_kept(feed.deep_view(), cfg.deep_view(), t.deep_view()),
{
    match find_route(&feed.routes, t.route_id.as_str()) {
        None => false,
        Some(route) => {
            if route_excluded(feed, cfg, route) {
                return false;
            }
            !trip_phantom(feed, cfg, t)
        },
    }
}

/// Checks one trip for a fatal defect, as `spec_trip_err` says.
pub fn trip_error(feed: &Feed, t: &Trip) -> (r: Result<(), PipelineError>)
    ensures
        match r {
            Ok(()) => spec_trip_err(feed.deep_view(), t.deep_view()) is None,
            Err(e) => spec_trip_err(feed.deep_view(), t.deep_view()) == Some(e.deep_view()),
        },
{
    let route = match find_route(&feed.routes, t.route_id.as_str()) {
        None => {
            return Err(PipelineError::Referential(t.route_id.clone()));
        },
        Some(r) => r,
    };
    if find_calendar(&feed.calendars, t.service_id.as_str()).is_none() {
        return Err(PipelineError::Referential(t.service_id.clone()));
    }
    let st = match first_stop_time_of(&feed.stop_times, t.id.as_str()) {
        None => {
            return Err(PipelineError::Referential(t.id.clone()));
        },
        Some(st) => st,
    };
    match first_dangling_stop(&feed.stop_times, &feed.stops, t.id.as_str()) {
        Some(sid) => {
            return Err(PipelineError::Referential(sid));
        },
        None => {},
    }
    if route.route_type == RouteType::Rail {
        let stop = match find_stop(&feed.stops, st.stop_id.as_str()) {
            None => {
                return Err(PipelineError::Referential(st.stop_id.clone()));
            },
            Some(s) => s,
        };
        match &stop.timezone {
            None => Err(PipelineError::Referential(stop.id.clone())),
            Some(tz) => {
                if zone_of_name(tz.as_str()) == Zone::Unsupported {
                    Err(PipelineError::UnsupportedTimezone(tz.clone()))
                } else {
                    Ok(())
                }
            },
        }
    } else {
        Ok(())
    }
}

/// Whether the trip is flagged for midnight crossing, as
/// `spec_trip_midnight_flagged` says.
pub fn trip_midnight_flagged(feed: &Feed, t: &Trip) -> (r: bool)
    requires
        spec_trip_err(feed.deep_view(), t.deep_view()) is None,
    ensures
        r == spec_trip_midnight_flagged(feed.deep_view(), t.deep_view()),
{
    let route = match find_route(&feed.routes, t.route_id.as_str()) {
        None => {
            return false;
        },
        Some(r) => r,
    };
    if !(route.route_type == RouteType::Rail) {
        return false;
    }
    let st = match first_stop_time_of(&feed.stop_times, t.id.as_str()) {
        None => {
            return false;
        },
        Some(st) => st,
    };
    let stop = match find_stop(&feed.stops, st.stop_id.as_str()) {
        None => {
            return false;
        },
        Some(s) => s,
    };
    match &stop.timezone {
        None => false,
        Some(tz) => {
            let z = zone_of_name(tz.as_str());
            if z == Zone::Eastern || z == Zone::Unsupported {
                false
            } else {
                let g = grace_hours(z);
                st.departure_time <= g * 3600
            }
        },
    }
}

/// Whether the trip is flagged and due for correction, as
/// `spec_trip_to_fix` says.
pub fn trip_to_fix(feed: &Feed, cfg: &Config, t: &Trip) -> (r: bool)
    requires
        spec_trip_err(feed.deep_view(), t.deep_view()) is None,
    ensures
        r == spec_trip_to_fix(feed.deep_view(), cfg.deep_view(), t.deep_view()),
{
    if !trip_midnight_flagged(feed, t) {
        return false;
    }
    match find_route(&feed.routes, t.route_id.as_str()) {
        None => false,
        Some(route) => !contains_str(&cfg.exempt_route_long_names, route.long_name.as_str()),
    }
}

/// Whether the trip is flagged but exempt, as
/// `spec_trip_exempt_flagged` says.
pub fn trip_exempt_flagged(feed: &Feed, cfg: &Config, t: &Trip) -> (r: bool)
    requires
        spec_trip_err(feed.deep_view(), t.deep_view()) is None,
    ensures
        r == spec_trip_exempt_flagged(feed.deep_view(), cfg.deep_view(), t.deep_view()),
{
    if !trip_midnight_flagged(feed, t) {
        return false;
    }
    match find_route(&feed.routes, t.route_id.as_str()) {
        None => false,
        Some(route) => contains_str(&cfg.exempt_route_long_names, route.long_name.as_str()),
    }
}

/// Flags a trip due for correction with its id.
pub open spec fn to_fix_fn(f: FeedV, c: ConfigV) -> spec_fn(TripV) -> Option<Seq<char>> {
    |t: TripV| if spec_trip_to_fix(f, c, t) {
        Some(t.id)
    } else {
        None
    }
}

/// Flags an exempt flagged trip with its id.
pub open spec fn exempt_fn(f: FeedV, c: ConfigV) -> spec_fn(TripV) -> Option<Seq<char>> {
    |t: TripV| if spec_trip_exempt_flagged(f, c, t) {
        Some(t.id)
    } else {
        None
    }
}

/// Midnight-crossing flags, partitioned: trips to correct, and trips
/// reported on exempt routes.
#[derive(Clone, Debug)]
pub struct MidnightFlags {
    pub to_fix: Vec<String>,
    pub exempt: Vec<String>,
}

/// Scans the trip table for midnight-crossing rail trips.  Fails on the
/// first trip with a fatal defect; otherwise returns the flagged trip
/// ids in table order, partitioned into correction set and exempt set.
pub fn detect_midnight_crossing(feed: &Feed, cfg: &Config) -> (r: Result<
    MidnightFlags,
    PipelineError,
>)
    ensures
        match r {
            Ok(fl) => spec_feed_valid(feed.deep_view()) && fl.to_fix.deep_view()
                == feed.deep_view().trips.filter_map(
                to_fix_fn(feed.deep_view(), cfg.deep_view()),
            ) && fl.exempt.deep_view() == feed.deep_view().trips.filter_map(
                exempt_fn(feed.deep_view(), cfg.deep_view()),
            ),
            Err(e) => exists|k: int|
                0 <= k < feed.deep_view().trips.len() && spec_trip_err(
                    feed.deep_view(),
                    #[trigger] feed.deep_view().trips[k],
                ) == Some(e.deep_view()) && (forall|j: int|
                    0 <= j < k ==> spec_trip_err(feed.deep_view(), feed.deep_view().trips[j])
                        is None),
        },
{
    let ghost fv = feed.deep_view();
    let ghost cv = cfg.deep_view();
    let ghost tf = to_fix_fn(fv, cv);
    let ghost ef = exempt_fn(fv, cv);
    let mut to_fix: Vec<String> = Vec::new();
    let mut exempt: Vec<String> = Vec::new();
    let mut i: usize = 0;
    while i < feed.trips.len()
        invariant
            0 <= i <= feed.trips.len(),
            fv == feed.deep_view(),
            cv == cfg.deep_view(),
            tf == to_fix_fn(fv, cv),
            ef == exempt_fn(fv, cv),
            forall|j: int| 0 <= j < i ==> spec_trip_err(fv, #[trigger] fv.trips[j]) is None,
            to_fix.deep_view() == fv.trips.take(i as int).filter_map(tf),
            exempt.deep_view() == fv.trips.take(i as int).filter_map(ef),
        decreases feed.trips.len() - i,
    {
        let t = &feed.trips[i];
        match trip_error(feed, t) {
            Err(e) => {
                proof {
                    assert(fv.trips[i as int] == t.deep_view());
                    assert(spec_trip_err(fv, fv.trips[i as int]) == Some(e.deep_view()));
                }
                return Err(e);
            },
            Ok(()) => {},
        }
        proof {
            fv.trips.lemma_filter_map_take_succ(tf, i as int);
            fv.trips.lemma_filter_map_take_succ(ef, i as int);
        }
        if trip_to_fix(feed, cfg, t) {
            to_fix.push(t.id.clone());
        }
        if trip_exempt_flagged(feed, cfg, t) {
            exempt.push(t.id.clone());
        }
        proof {
            assert(to_fix.deep_view() =~= fv.trips.take(i as int + 1).filter_map(tf));
            assert(exempt.deep_view() =~= fv.trips.take(i as int + 1).filter_map(ef));
        }
        i += 1;
    }
    proof {
        assert(fv.trips.take(i as int) =~= fv.trips);
    }
    Ok(MidnightFlags { to_fix, exempt })
}

/// Flags an excluded agency with its name.
pub open spec fn excluded_agency_fn(c: ConfigV) -> spec_fn(AgencyV) -> Option<Seq<char>> {
    |a: AgencyV| if spec_agency_excluded(c, a) {
        Some(a.name)
    } else {
        None
    }
}

/// Flags an excluded route with its id.
pub open spec fn excluded_route_fn(f: FeedV, c: ConfigV) -> spec_fn(RouteV) -> Option<Seq<char>> {
    |r: RouteV| if spec_route_excluded(f, c, r) {
        Some(r.id)
    } else {
        None
    }
}

/// Flags a route of the rebrand agency with its id.
pub open spec fn rebrand_route_fn(f: FeedV, c: ConfigV) -> spec_fn(RouteV) -> Option<Seq<char>> {
    |r: RouteV| if spec_route_rebranded(f, c, r) {
        Some(r.id)
    } else {
        None
    }
}

/// Flags a phantom trip with its id.
pub open spec fn phantom_trip_fn(f: FeedV, c: ConfigV) -> spec_fn(TripV) -> Option<Seq<char>> {
    |t: TripV| if spec_trip_phantom(f, c, t) {
        Some(t.id)
    } else {
        None
    }
}

/// Scans the agency table and returns the names of superseded
/// agencies, in table order.
pub fn detect_superseded_agencies(feed: &Feed, cfg: &Config) -> (r: Vec<String>)
    ensures
        r.deep_view() == feed.deep_view().agencies.filter_map(
            excluded_agency_fn(cfg.deep_view()),
        ),
{
    let ghost fv = feed.deep_view();
    let ghost af = excluded_agency_fn(cfg.deep_view());
    let mut out: Vec<String> = Vec::new();
    let mut i: usize = 0;
    while i < feed.agencies.len()
        invariant
            0 <= i <= feed.agencies.len(),
            fv == feed.deep_view(),
            af == excluded_agency_fn(cfg.deep_view()),
            out.deep_view() == fv.agencies.take(i as int).filter_map(af),
        decreases feed.agencies.len() - i,
    {
        proof {
            fv.agencies.lemma_filter_map_take_succ(af, i as int);
        }
        if contains_str(&cfg.agency_exclude_names, feed.agencies[i].name.as_str()) {
            out.push(feed.agencies[i].name.clone());
        }
        proof {
            assert(out.deep_view() =~= fv.agencies.take(i as int + 1).filter_map(af));
        }
        i += 1;
    }
    proof {
        assert(fv.agencies.take(i as int) =~= fv.agencies);
    }
    out
}

/// Scans the route table and returns the ids of superseded routes, in
/// table order.
pub fn detect_superseded_routes(feed: &Feed, cfg: &Config) -> (r: Vec<String>)
    ensures
        r.deep_view() == feed.deep_view().routes.filter_map(
            excluded_route_fn(feed.deep_view(), cfg.deep_view()),
        ),
{
    let ghost fv = feed.deep_view();
    let ghost rf = excluded_route_fn(fv, cfg.deep_view());
    let mut out: Vec<String> = Vec::new();
    let mut i: usize = 0;
    while i < feed.routes.len()
        invariant
            0 <= i <= feed.routes.len(),
            fv == feed.deep_view(),
            rf == excluded_route_fn(fv, cfg.deep_view()),
            out.deep_view() == fv.routes.take(i as int).filter_map(rf),
        decreases feed.routes.len() - i,
    {
        proof {
            fv.routes.lemma_filter_map_take_succ(rf, i as int);
        }
        if route_excluded(feed, cfg, &feed.routes[i]) {
            out.push(feed.routes[i].id.clone());
        }
        proof {
            assert(out.deep_view() =~= fv.routes.take(i as int + 1).filter_map(rf));
        }
        i += 1;
    }
    proof {
        assert(fv.routes.take(i as int) =~= fv.routes);
    }
    out
}

/// Scans the route table and returns the ids of routes of the rebrand
/// agency, in table order.
pub fn detect_rebrand_routes(feed: &Feed, cfg: &Config) -> (r: Vec<String>)
    ensures
        r.deep_view() == feed.deep_view().routes.filter_map(
            rebrand_route_fn(feed.deep_view(), cfg.deep_view()),
        ),
{
    let ghost fv = feed.deep_view();
    let ghost rf = rebrand_route_fn(fv, cfg.deep_view());
    let mut out: Vec<String> = Vec::new();
    let mut i: usize = 0;
    while i < feed.routes.len()
        invariant
            0 <= i <= feed.routes.len(),
            fv == feed.deep_view(),
            rf == rebrand_route_fn(fv, cfg.deep_view()),
            out.deep_view() == fv.routes.take(i as int).filter_map(rf),
        decreases feed.routes.len() - i,
    {
        proof {
            fv.routes.lemma_filter_map_take_succ(rf, i as int);
        }
        if route_rebranded(feed, cfg, &feed.routes[i]) {
            out.push(feed.routes[i].id.clone());
        }
        proof {
            assert(out.deep_view() =~= fv.routes.take(i as int + 1).filter_map(rf));
        }
        i += 1;
    }
    proof {
        assert(fv.routes.take(i as int) =~= fv.routes);
    }
    out
}

/// Scans the trip table and returns the ids of phantom trips, in table
/// order.
pub fn detect_phantom_trips(feed: &Feed, cfg: &Config) -> (r: Vec<String>)
    ensures
        r.deep_view() == feed.deep_view().trips.filter_map(
            phantom_trip_fn(feed.deep_view(), cfg.deep_view()),
        ),
{
    let ghost fv = feed.deep_view();
    let ghost pf = phantom_trip_fn(fv, cfg.deep_view());
    let mut out: Vec<String> = Vec::new();
    let mut i: usize = 0;
    while i < feed.trips.len()
        invariant
            0 <= i <= feed.trips.len(),
            fv == feed.deep_view(),
            pf == phantom_trip_fn(fv, cfg.deep_view()),
            out.deep_view() == fv.trips.take(i as int).filter_map(pf),
        decreases feed.trips.len() - i,
    {
        proof {
            fv.trips.lemma_filter_map_take_succ(pf, i as int);
        }
        if trip_phantom(feed, cfg, &feed.trips[i]) {
            out.push(feed.trips[i].id.clone());
        }
        proof {
            assert(out.deep_view() =~= fv.trips.take(i as int + 1).filter_map(pf));
        }
        i += 1;
    }
    proof {
        assert(fv.trips.take(i as int) =~= fv.trips);
    }
    out
}

} // verus!
