//! The pipeline orchestrator: detectors first, then corrections in a
//! fixed dependency order, cascading removals along the reference graph
//! (route to trip to stop time) through the kept-trip id set.
//!
//! The whole run is pinned to the mathematical function
//! [`spec_run_pipeline`]; every pass below is proved equal to its
//! spec-level `filter_map` or `map_values`.

use crate::config::{Config, ConfigV};
use crate::correct::{
    fix_trip, override_stop, rebrand_route, spec_fix_trip, spec_override_stop, spec_rebrand_route,
    spec_trip_synth,
};
use crate::detect::{
    detect_broken_shapes, detect_midnight_crossing, exempt_fn, route_excluded, route_rebranded,
    spec_agency_excluded, spec_broken_shape_ids, spec_feed_valid, spec_route_excluded,
    spec_route_rebranded, spec_trip_err, spec_trip_kept, spec_trip_to_fix, trip_kept, trip_to_fix,
    PipelineError,
};
use crate::model::{
    Agency, AgencyV, Calendar, CalendarV, Feed, FeedV, Route, RouteV, Stop, StopTime, StopTimeV,
    StopV, Trip, TripV,
};
use crate::strutil::contains_str;
use vstd::prelude::*;

verus! {

/// Structured diagnostics of one run: flagged-but-not-fatal conditions,
/// reported rather than corrected.
#[derive(Clone, Debug, PartialEq, Eq)]
pub struct Diagnostics {
    /// Ids of geometrically broken shapes, in table order.
    pub broken_shapes: Vec<String>,
    /// Ids of midnight-crossing trips on exempt routes.
    pub midnight_exempt: Vec<String>,
    /// Ids of midnight-crossing trips in the correction set for which no
    /// synthesis rule defines a fix.
    pub midnight_unfixed: Vec<String>,
}

/// View of [`Diagnostics`].
#[verifier::ext_equal]
pub struct DiagnosticsV {
    pub broken_shapes: Seq<Seq<char>>,
    pub midnight_exempt: Seq<Seq<char>>,
    pub midnight_unfixed: Seq<Seq<char>>,
}

impl DeepView for Diagnostics {
    type V = DiagnosticsV;

    open spec fn deep_view(&self) -> DiagnosticsV {
        DiagnosticsV {
            broken_shapes: self.broken_shapes.deep_view(),
            midnight_exempt: self.midnight_exempt.deep_view(),
            midnight_unfixed: self.midnight_unfixed.deep_view(),
        }
    }
}

/// The corrected bundle: the six emitted tables, in emission order, and
/// the run's diagnostics.  Shapes are not re-emitted, only referenced.
#[derive(Clone, Debug, PartialEq, Eq)]
pub struct CorrectedFeed {
    pub agencies: Vec<Agency>,
    pub routes: Vec<Route>,
    pub trips: Vec<Trip>,
    pub stop_times: Vec<StopTime>,
    pub stops: Vec<Stop>,
    pub calendars: Vec<Calendar>,
    pub diagnostics: Diagnostics,
}

/// View of a [`CorrectedFeed`].
#[verifier::ext_equal]
pub struct CorrectedFeedV {
    pub agencies: Seq<AgencyV>,
    pub routes: Seq<RouteV>,
    pub trips: Seq<TripV>,
    pub stop_times: Seq<StopTimeV>,
    pub stops: Seq<StopV>,
    pub calendars: Seq<CalendarV>,
    pub diagnostics: DiagnosticsV,
}

impl DeepView for CorrectedFeed {
    type V = CorrectedFeedV;

    open spec fn deep_view(&self) -> CorrectedFeedV {
        CorrectedFeedV {
            agencies: self.agencies.deep_view(),
            routes: self.routes.deep_view(),
            trips: self.trips.deep_view(),
            stop_times: self.stop_times.deep_view(),
            stops: self.stops.deep_view(),
            calendars: self.calendars.deep_view(),
            diagnostics: self.diagnostics.deep_view(),
        }
    }
}

/// Keeps and corrects a surviving trip, drops an excluded or phantom
/// one.
pub open spec fn trip_pass_fn(f: FeedV, c: ConfigV) -> spec_fn(TripV) -> Option<TripV> {
    |t: TripV| if spec_trip_kept(f, c, t) {
        Some(spec_fix_trip(f, c, t))
    } else {
        None
    }
}

/// The emitted trip table.
pub open spec fn spec_out_trips(f: FeedV, c: ConfigV) -> Seq<TripV> {
    f.trips.filter_map(trip_pass_fn(f, c))
}

/// Flags a kept trip with its id.
pub open spec fn kept_id_fn(f: FeedV, c: ConfigV) -> spec_fn(TripV) -> Option<Seq<char>> {
    |t: TripV| if spec_trip_kept(f, c, t) {
        Some(t.id)
    } else {
        None
    }
}

/// The kept-trip id set, in table order.
pub open spec fn spec_kept_trip_ids(f: FeedV, c: ConfigV) -> Seq<Seq<char>> {
    f.trips.filter_map(kept_id_fn(f, c))
}

/// Keeps an agency unless excluded.
pub open spec fn agency_pass_fn(c: ConfigV) -> spec_fn(AgencyV) -> Option<AgencyV> {
    |a: AgencyV| if spec_agency_excluded(c, a) {
        None
    } else {
        Some(a)
    }
}

/// The emitted agency table.
pub open spec fn spec_out_agencies(f: FeedV, c: ConfigV) -> Seq<AgencyV> {
    f.agencies.filter_map(agency_pass_fn(c))
}

/// Applies the coordinate override to a stop.
pub open spec fn stop_pass_fn(c: ConfigV) -> spec_fn(StopV) -> StopV {
    |s: StopV| spec_override_stop(c, s)
}

/// The emitted stop table: all stops, overridden where configured.
pub open spec fn spec_out_stops(f: FeedV, c: ConfigV) -> Seq<StopV> {
    f.stops.map_values(stop_pass_fn(c))
}

/// Keeps a stop time exactly when its trip is kept.
pub open spec fn stop_time_pass_fn(f: FeedV, c: ConfigV) -> spec_fn(StopTimeV) -> Option<
    StopTimeV,
> {
    |st: StopTimeV| if spec_kept_trip_ids(f, c).contains(st.trip_id) {
        Some(st)
    } else {
        None
    }
}

/// The emitted stop-time table.
pub open spec fn spec_out_stop_times(f: FeedV, c: ConfigV) -> Seq<StopTimeV> {
    f.stop_times.filter_map(stop_time_pass_fn(f, c))
}

/// Drops an excluded route, rebrands a route of the designated agency,
/// keeps the rest unchanged.
pub open spec fn route_pass_fn(f: FeedV, c: ConfigV) -> spec_fn(RouteV) -> Option<RouteV> {
    |r: RouteV| if spec_route_excluded(f, c, r) {
        None
    } else if spec_route_rebranded(f, c, r) {
        Some(spec_rebrand_route(c, r))
    } else {
        Some(r)
    }
}

/// The emitted route table.
pub open spec fn spec_out_routes(f: FeedV, c: ConfigV) -> Seq<RouteV> {
    f.routes.filter_map(route_pass_fn(f, c))
}

/// The calendar synthesized while processing a kept trip, if any.
pub open spec fn synth_pass_fn(f: FeedV, c: ConfigV) -> spec_fn(TripV) -> Option<CalendarV> {
    |t: TripV| if spec_trip_kept(f, c, t) {
        spec_trip_synth(f, c, t)
    } else {
        None
    }
}

/// The emitted calendar table: every original calendar, then the
/// synthesized ones in trip table order.
pub open spec fn spec_out_calendars(f: FeedV, c: ConfigV) -> Seq<CalendarV> {
    f.calendars + f.trips.filter_map(synth_pass_fn(f, c))
}

/// Flags a kept trip of the correction set for which no synthesis rule
/// defines a fix.
pub open spec fn unfixed_fn(f: FeedV, c: ConfigV) -> spec_fn(TripV) -> Option<Seq<char>> {
    |t: TripV| if spec_trip_kept(f, c, t) && spec_trip_to_fix(f, c, t) && spec_trip_synth(
        f,
        c,
        t,
    ) is None {
        Some(t.id)
    } else {
        None
    }
}

/// The diagnostics of one run.
pub open spec fn spec_diagnostics(f: FeedV, c: ConfigV) -> DiagnosticsV {
    DiagnosticsV {
        broken_shapes: spec_broken_shape_ids(f, c),
        midnight_exempt: f.trips.filter_map(exempt_fn(f, c)),
        midnight_unfixed: f.trips.filter_map(unfixed_fn(f, c)),
    }
}

/// The whole corrected bundle, as a function of the loaded tables and
/// the rule set alone.
pub open spec fn spec_run_pipeline(f: FeedV, c: ConfigV) -> CorrectedFeedV {
    CorrectedFeedV {
        agencies: spec_out_agencies(f, c),
        routes: spec_out_routes(f, c),
        trips: spec_out_trips(f, c),
        stop_times: spec_out_stop_times(f, c),
        stops: spec_out_stops(f, c),
        calendars: spec_out_calendars(f, c),
        diagnostics: spec_diagnostics(f, c),
    }
}

/// Copies an agency record.
fn clone_agency(a: &Agency) -> (r: Agency)
    ensures
        r == *a,
{
    Agency { id: crate::correct::clone_opt_string(&a.id), name: a.name.clone() }
}

/// Copies a route record.
fn clone_route(r0: &Route) -> (r: Route)
    ensures
        r == *r0,
{
    Route {
        id: r0.id.clone(),
        agency_id: crate::correct::clone_opt_string(&r0.agency_id),
        short_name: r0.short_name.clone(),
        long_name: r0.long_name.clone(),
        route_type: r0.route_type,
        color: r0.color.clone(),
    }
}

/// Copies a calendar record.
fn clone_calendar(c: &Calendar) -> (r: Calendar)
    ensures
        r == *c,
{
    Calendar {
        id: c.id.clone(),
        monday: c.monday,
        tuesday: c.tuesday,
        wednesday: c.wednesday,
        thursday: c.thursday,
        friday: c.friday,
        saturday: c.saturday,
        sunday: c.sunday,
        start_date: c.start_date,
        end_date: c.end_date,
    }
}

/// Copies a stop-time record.
fn clone_stop_time(st: &StopTime) -> (r: StopTime)
    ensures
        r == *st,
{
    StopTime {
        trip_id: st.trip_id.clone(),
        stop_id: st.stop_id.clone(),
        departure_time: st.departure_time,
        sequence: st.sequence,
    }
}

/// Runs the whole correction pipeline over the loaded tables.
///
/// Fails closed on the first trip with a fatal referential or timezone
/// defect, emitting nothing; otherwise the corrected bundle equals
/// [`spec_run_pipeline`] of the inputs, so a second run over equal
/// tables emits equal output.
pub fn run_pipeline(feed: &Feed, cfg: &Config) -> (r: Result<CorrectedFeed, PipelineError>)
    ensures
        match r {
            Ok(out) => spec_feed_valid(feed.deep_view()) && out.deep_view() == spec_run_pipeline(
                feed.deep_view(),
                cfg.deep_view(),
            ),
            Err(e) => !spec_feed_valid(feed.deep_view()) && exists|k: int|
                0 <= k < feed.deep_view().trips.len() && spec_trip_err(
                    feed.deep_view(),
                    #[trigger] feed.deep_view().trips[k],
                ) == Some(e.deep_view()) && (forall|j: int|
                    0 <= j < k ==> spec_trip_err(feed.deep_view(), feed.deep_view().trips[j])
                        is None),
        },
{
    let ghost fv = feed.deep_view();
    let ghost cv = cfg.deep_view();

    // Step 1: detectors.  Midnight detection also validates every trip.
    let flags = match detect_midnight_crossing(feed, cfg) {
        Err(e) => {
            proof {
                let k = choose|k: int|
                    0 <= k < fv.trips.len() && spec_trip_err(fv, #[trigger] fv.trips[k]) == Some(
                        e.deep_view(),
                    ) && (forall|j: int|
                        0 <= j < k ==> spec_trip_err(fv, fv.trips[j]) is None);
                assert(!spec_feed_valid(fv));
            }
            return Err(e);
        },
        Ok(fl) => fl,
    };
    let broken_shapes = detect_broken_shapes(&feed.shapes, cfg);

    // Step 2: one pass over the trip table: shape detachment, calendar
    // synthesis, inclusion; record kept trip ids.
    let ghost tp = trip_pass_fn(fv, cv);
    let ghost ki = kept_id_fn(fv, cv);
    let ghost sp = synth_pass_fn(fv, cv);
    let ghost uf = unfixed_fn(fv, cv);
    let mut out_trips: Vec<Trip> = Vec::new();
    let mut kept_ids: Vec<String> = Vec::new();
    let mut synth_cals: Vec<Calendar> = Vec::new();
    let mut unfixed: Vec<String> = Vec::new();
    let mut i: usize = 0;
    while i < feed.trips.len()
        invariant
            0 <= i <= feed.trips.len(),
            fv == feed.deep_view(),
            cv == cfg.deep_view(),
            spec_feed_valid(fv),
            tp == trip_pass_fn(fv, cv),
            ki == kept_id_fn(fv, cv),
            sp == synth_pass_fn(fv, cv),
            uf == unfixed_fn(fv, cv),
            out_trips.deep_view() == fv.trips.take(i as int).filter_map(tp),
            kept_ids.deep_view() == fv.trips.take(i as int).filter_map(ki),
            synth_cals.deep_view() == fv.trips.take(i as int).filter_map(sp),
            unfixed.deep_view() == fv.trips.take(i as int).filter_map(uf),
        decreases feed.trips.len() - i,
    {
        let t = &feed.trips[i];
        proof {
            assert(spec_trip_err(fv, fv.trips[i as int]) is None);
            fv.trips.lemma_filter_map_take_succ(tp, i as int);
            fv.trips.lemma_filter_map_take_succ(ki, i as int);
            fv.trips.lemma_filter_map_take_succ(sp, i as int);
            fv.trips.lemma_filter_map_take_succ(uf, i as int);
        }
        if trip_kept(feed, cfg, t) {
            let needs_fix = trip_to_fix(feed, cfg, t);
            let (fixed, synth) = fix_trip(feed, cfg, t);
            out_trips.push(fixed);
            kept_ids.push(t.id.clone());
            match synth {
                Some(cal) => {
                    synth_cals.push(cal);
                },
                None => {
                    if needs_fix {
                        unfixed.push(t.id.clone());
                    }
                },
            }
        }
        proof {
            assert(out_trips.deep_view() =~= fv.trips.take(i as int + 1).filter_map(tp));
            assert(kept_ids.deep_view() =~= fv.trips.take(i as int + 1).filter_map(ki));
            assert(synth_cals.deep_view() =~= fv.trips.take(i as int + 1).filter_map(sp));
            assert(unfixed.deep_view() =~= fv.trips.take(i as int + 1).filter_map(uf));
        }
        i += 1;
    }
    proof {
        assert(fv.trips.take(i as int) =~= fv.trips);
    }

    // Step 3: agencies, unless excluded.
    let ghost ap = agency_pass_fn(cv);
    let mut out_agencies: Vec<Agency> = Vec::new();
    let mut i: usize = 0;
    while i < feed.agencies.len()
        invariant
            0 <= i <= feed.agencies.len(),
            fv == feed.deep_view(),
            cv == cfg.deep_view(),
            ap == agency_pass_fn(cv),
            out_agencies.deep_view() == fv.agencies.take(i as int).filter_map(ap),
        decreases feed.agencies.len() - i,
    {
        proof {
            fv.agencies.lemma_filter_map_take_succ(ap, i as int);
        }
        if !contains_str(&cfg.agency_exclude_names, feed.agencies[i].name.as_str()) {
            let a = clone_agency(&feed.agencies[i]);
            out_agencies.push(a);
        }
        proof {
            assert(out_agencies.deep_view() =~= fv.agencies.take(i as int + 1).filter_map(ap));
        }
        i += 1;
    }
    proof {
        assert(fv.agencies.take(i as int) =~= fv.agencies);
    }

    // Step 4: stops, overridden where configured; never removed.
    let ghost stp = stop_pass_fn(cv);
    let mut out_stops: Vec<Stop> = Vec::new();
    let mut i: usize = 0;
    while i < feed.stops.len()
        invariant
            0 <= i <= feed.stops.len(),
            fv == feed.deep_view(),
            cv == cfg.deep_view(),
            stp == stop_pass_fn(cv),
            out_stops.deep_view() == fv.stops.take(i as int).map_values(stp),
        decreases feed.stops.len() - i,
    {
        let s = override_stop(cfg, &feed.stops[i]);
        out_stops.push(s);
        proof {
            assert(fv.stops.take(i as int + 1) =~= fv.stops.take(i as int).push(
                fv.stops[i as int],
            ));
            assert(fv.stops.take(i as int + 1).map_values(stp) =~= fv.stops.take(
                i as int,
            ).map_values(stp).push(stp(fv.stops[i as int])));
            assert(out_stops.deep_view() =~= fv.stops.take(i as int + 1).map_values(stp));
        }
        i += 1;
    }
    proof {
        assert(fv.stops.take(i as int) =~= fv.stops);
    }

    // Step 5: stop times of kept trips only.
    let ghost sfp = stop_time_pass_fn(fv, cv);
    let mut out_stop_times: Vec<StopTime> = Vec::new();
    let mut i: usize = 0;
    while i < feed.stop_times.len()
        invariant
            0 <= i <= feed.stop_times.len(),
            fv == feed.deep_view(),
            cv == cfg.deep_view(),
            sfp == stop_time_pass_fn(fv, cv),
            kept_ids.deep_view() == spec_kept_trip_ids(fv, cv),
            out_stop_times.deep_view() == fv.stop_times.take(i as int).filter_map(sfp),
        decreases feed.stop_times.len() - i,
    {
        proof {
            fv.stop_times.lemma_filter_map_take_succ(sfp, i as int);
        }
        if contains_str(&kept_ids, feed.stop_times[i].trip_id.as_str()) {
            let st = clone_stop_time(&feed.stop_times[i]);
            out_stop_times.push(st);
        }
        proof {
            assert(out_stop_times.deep_view() =~= fv.stop_times.take(i as int + 1).filter_map(
                sfp,
            ));
        }
        i += 1;
    }
    proof {
        assert(fv.stop_times.take(i as int) =~= fv.stop_times);
    }

    // Step 6: routes: drop excluded, rebrand the designated agency's,
    // keep the rest.
    let ghost rp = route_pass_fn(fv, cv);
    let mut out_routes: Vec<Route> = Vec::new();
    let mut i: usize = 0;
    while i < feed.routes.len()
        invariant
            0 <= i <= feed.routes.len(),
            fv == feed.deep_view(),
            cv == cfg.deep_view(),
            rp == route_pass_fn(fv, cv),
            out_routes.deep_view() == fv.routes.take(i as int).filter_map(rp),
        decreases feed.routes.len() - i,
    {
        proof {
            fv.routes.lemma_filter_map_take_succ(rp, i as int);
        }
        let r0 = &feed.routes[i];
        if !route_excluded(feed, cfg, r0) {
            if route_rebranded(feed, cfg, r0) {
                let r = rebrand_route(cfg, r0);
                out_routes.push(r);
            } else {
                let r = clone_route(r0);
                out_routes.push(r);
            }
        }
        proof {
            assert(out_routes.deep_view() =~= fv.routes.take(i as int + 1).filter_map(rp));
        }
        i += 1;
    }
    proof {
        assert(fv.routes.take(i as int) =~= fv.routes);
    }

    // Step 7: calendars: all originals, then the synthesized ones.
    let mut out_calendars: Vec<Calendar> = Vec::new();
    let mut i: usize = 0;
    while i < feed.calendars.len()
        invariant
            0 <= i <= feed.calendars.len(),
            fv == feed.deep_view(),
            out_calendars.deep_view() == fv.calendars.take(i as int),
        decreases feed.calendars.len() - i,
    {
        let c = clone_calendar(&feed.calendars[i]);
        out_calendars.push(c);
        proof {
            assert(fv.calendars.take(i as int + 1) =~= fv.calendars.take(i as int).push(
                fv.calendars[i as int],
            ));
            assert(out_calendars.deep_view() =~= fv.calendars.take(i as int + 1));
        }
        i += 1;
    }
    proof {
        assert(fv.calendars.take(i as int) =~= fv.calendars);
    }
    let ghost synth_seq = synth_cals.deep_view();
    let mut i: usize = 0;
    while i < synth_cals.len()
        invariant
            0 <= i <= synth_cals.len(),
            fv == feed.deep_view(),
            synth_seq == synth_cals.deep_view(),
            out_calendars.deep_view() == fv.calendars + synth_seq.take(i as int),
        decreases synth_cals.len() - i,
    {
        let c = clone_calendar(&synth_cals[i]);
        out_calendars.push(c);
        proof {
            assert(c.deep_view() == synth_seq[i as int]);
            assert(out_calendars.deep_view() =~= (fv.calendars + synth_seq.take(i as int)).push(
                synth_seq[i as int],
            ));
            assert((fv.calendars + synth_seq.take(i as int)).push(synth_seq[i as int]) =~= fv.calendars
                + synth_seq.take(i as int + 1));
        }
        i += 1;
    }
    proof {
        assert(synth_seq.take(i as int) =~= synth_seq);
    }

    let out = CorrectedFeed {
        agencies: out_agencies,
        routes: out_routes,
        trips: out_trips,
        stop_times: out_stop_times,
        stops: out_stops,
        calendars: out_calendars,
        diagnostics: Diagnostics {
            broken_shapes,
            midnight_exempt: flags.exempt,
            midnight_unfixed: unfixed,
        },
    };
    proof {
        assert(out.deep_view() =~= spec_run_pipeline(fv, cv));
    }
    Ok(out)
}

} // verus!
