//! The laws of the pipeline: referential integrity of the emitted
//! bundle, determinism, shape detachment, and the removal cascade,
//! proved of [`spec_run_pipeline`]'s component tables.

use crate::config::ConfigV;
use crate::correct::{
    spec_fix_trip, spec_rebrand_route, spec_synth_cal_id, spec_trip_shape_cleared, spec_trip_synth,
};
use crate::detect::{
    spec_agency_excluded, spec_agency_id_excluded, spec_feed_valid, spec_route_excluded,
    spec_route_rebranded, spec_shape_broken, spec_trip_err, spec_trip_kept,
};
use crate::model::{
    lemma_filter_map_in, lemma_find_by_some, route_key, spec_find_calendar, spec_find_route,
    AgencyV, FeedV, RouteV, StopTimeV, TripV,
};
use crate::pipeline::{
    agency_pass_fn, kept_id_fn, route_pass_fn, spec_kept_trip_ids, spec_out_agencies,
    spec_out_calendars, spec_out_routes, spec_out_stop_times, spec_out_trips, spec_run_pipeline,
    stop_time_pass_fn, synth_pass_fn, trip_pass_fn,
};
use vstd::prelude::*;

verus! {

/// Law: the pipeline is deterministic.  Two runs over equal input
/// tables and equal rule sets produce equal output tables; together
/// with `run_pipeline`'s contract, which pins its result to
/// `spec_run_pipeline`, a second invocation of the whole pipeline on
/// identical inputs emits identical tables.
pub proof fn lemma_pipeline_deterministic(f1: FeedV, f2: FeedV, c1: ConfigV, c2: ConfigV)
    requires
        f1 == f2,
        c1 == c2,
    ensures
        spec_run_pipeline(f1, c1) == spec_run_pipeline(f2, c2),
{
}

/// Law: a rebranded, non-excluded route is emitted with its id and
/// agency unchanged and exactly the configured short name, long name
/// and color.
pub proof fn lemma_rebrand_preserves_identity(f: FeedV, c: ConfigV, k: int)
    requires
        0 <= k < f.routes.len(),
        spec_route_rebranded(f, c, f.routes[k]),
        !spec_route_excluded(f, c, f.routes[k]),
    ensures
        spec_out_routes(f, c).contains(
            RouteV {
                id: f.routes[k].id,
                agency_id: f.routes[k].agency_id,
                short_name: c.rebrand_short_name,
                long_name: c.rebrand_long_name,
                route_type: f.routes[k].route_type,
                color: c.rebrand_color,
            },
        ),
{
    lemma_filter_map_in(f.routes, route_pass_fn(f, c), k);
    assert(route_pass_fn(f, c)(f.routes[k]) == Some(spec_rebrand_route(c, f.routes[k])));
}

/// Law: a broken shape is referenced by no emitted trip — every trip
/// that referenced it had the reference cleared.
pub proof fn lemma_broken_shape_detached(f: FeedV, c: ConfigV, sid: Seq<char>)
    requires
        spec_shape_broken(f, c, sid),
    ensures
        forall|j: int|
            0 <= j < spec_out_trips(f, c).len() ==> (#[trigger] spec_out_trips(f, c)[j]).shape_id
                != Some(sid),
{
    let out = spec_out_trips(f, c);
    assert forall|j: int| 0 <= j < out.len() implies (#[trigger] out[j]).shape_id != Some(sid) by {
        assert(out.contains(out[j]));
        f.trips.lemma_filter_map_contains(trip_pass_fn(f, c), out[j]);
        let t = choose|t: TripV| #[trigger]
            f.trips.contains(t) && trip_pass_fn(f, c)(t) == Some(out[j]);
        assert(out[j] == spec_fix_trip(f, c, t));
        if t.shape_id == Some(sid) {
            assert(spec_trip_shape_cleared(f, c, t));
        }
    }
}

/// Law: a kept trip whose shape reference is not flagged for clearing
/// keeps it unchanged, and its corrected form is emitted.
pub proof fn lemma_unflagged_shape_kept(f: FeedV, c: ConfigV, k: int)
    requires
        0 <= k < f.trips.len(),
        spec_trip_kept(f, c, f.trips[k]),
        !spec_trip_shape_cleared(f, c, f.trips[k]),
    ensures
        spec_fix_trip(f, c, f.trips[k]).shape_id == f.trips[k].shape_id,
        spec_out_trips(f, c).contains(spec_fix_trip(f, c, f.trips[k])),
{
    lemma_filter_map_in(f.trips, trip_pass_fn(f, c), k);
}

/// Law: no orphan stop times — every emitted stop time references a
/// trip that is also emitted.
pub proof fn lemma_no_orphan_stop_times(f: FeedV, c: ConfigV, i: int)
    requires
        0 <= i < spec_out_stop_times(f, c).len(),
    ensures
        exists|j: int|
            0 <= j < spec_out_trips(f, c).len() && spec_out_trips(f, c)[j].id
                == spec_out_stop_times(f, c)[i].trip_id,
{
    let outs = spec_out_stop_times(f, c);
    let outt = spec_out_trips(f, c);
    {
        let st = outs[i];
        assert(outs.contains(st));
        f.stop_times.lemma_filter_map_contains(stop_time_pass_fn(f, c), st);
        let s0 = choose|s0: StopTimeV| #[trigger]
            f.stop_times.contains(s0) && stop_time_pass_fn(f, c)(s0) == Some(st);
        assert(spec_kept_trip_ids(f, c).contains(st.trip_id));
        f.trips.lemma_filter_map_contains(kept_id_fn(f, c), st.trip_id);
        let t = choose|t: TripV| #[trigger]
            f.trips.contains(t) && kept_id_fn(f, c)(t) == Some(st.trip_id);
        let k = choose|k: int| 0 <= k < f.trips.len() && f.trips[k] == t;
        lemma_filter_map_in(f.trips, trip_pass_fn(f, c), k);
        let ot = spec_fix_trip(f, c, t);
        assert(outt.contains(ot));
        let j = choose|j: int| 0 <= j < outt.len() && outt[j] == ot;
        assert(outt[j].id == st.trip_id);
    }
}

/// Law: every emitted trip references a route present in the emitted
/// route table and a calendar present in the emitted calendar table
/// (original or synthesized).
pub proof fn lemma_trip_references_resolve(f: FeedV, c: ConfigV, i: int)
    requires
        spec_feed_valid(f),
        0 <= i < spec_out_trips(f, c).len(),
    ensures
        exists|j: int|
            0 <= j < spec_out_routes(f, c).len() && spec_out_routes(f, c)[j].id
                == spec_out_trips(f, c)[i].route_id,
        exists|j: int|
            0 <= j < spec_out_calendars(f, c).len() && spec_out_calendars(f, c)[j].id
                == spec_out_trips(f, c)[i].service_id,
{
    let outt = spec_out_trips(f, c);
    let outr = spec_out_routes(f, c);
    let outc = spec_out_calendars(f, c);
    {
        let ot = outt[i];
        assert(outt.contains(ot));
        f.trips.lemma_filter_map_contains(trip_pass_fn(f, c), ot);
        let t = choose|t: TripV| #[trigger]
            f.trips.contains(t) && trip_pass_fn(f, c)(t) == Some(ot);
        let k = choose|k: int| 0 <= k < f.trips.len() && f.trips[k] == t;
        assert(spec_trip_err(f, f.trips[k]) is None);
        assert(ot == spec_fix_trip(f, c, t));
        assert(spec_trip_kept(f, c, t));

        // The route: it resolves, is not excluded, and keeps its id
        // through rebranding.
        let r0 = spec_find_route(f.routes, t.route_id).unwrap();
        lemma_find_by_some(f.routes, route_key(), t.route_id);
        let m = choose|m: int|
            0 <= m < f.routes.len() && f.routes[m] == r0 && route_key()(f.routes[m]) == t.route_id;
        assert(!spec_route_excluded(f, c, r0));
        lemma_filter_map_in(f.routes, route_pass_fn(f, c), m);
        let or = route_pass_fn(f, c)(r0).unwrap();
        assert(outr.contains(or));
        let j1 = choose|j1: int| 0 <= j1 < outr.len() && outr[j1] == or;
        assert(or.id == t.route_id);
        assert(outr[j1].id == ot.route_id);

        // The calendar: synthesized for this trip, or the original one.
        match spec_trip_synth(f, c, t) {
            Some(cal) => {
                assert(synth_pass_fn(f, c)(t) == Some(cal));
                lemma_filter_map_in(f.trips, synth_pass_fn(f, c), k);
                let synths = f.trips.filter_map(synth_pass_fn(f, c));
                assert(synths.contains(cal));
                let j0 = choose|j0: int| 0 <= j0 < synths.len() && synths[j0] == cal;
                assert(outc[f.calendars.len() + j0] == cal);
                assert(ot.service_id == cal.id);
            },
            None => {
                assert(ot.service_id == t.service_id);
                let cal0 = spec_find_calendar(f.calendars, t.service_id).unwrap();
                lemma_find_by_some(f.calendars, crate::model::calendar_key(), t.service_id);
                let m2 = choose|m2: int|
                    0 <= m2 < f.calendars.len() && f.calendars[m2] == cal0
                        && crate::model::calendar_key()(f.calendars[m2]) == t.service_id;
                assert(outc[m2] == cal0);
                assert(outc[m2].id == ot.service_id);
            },
        }
    }
}

/// Law: a synthesized calendar id cannot collide with an upstream id:
/// it always starts with the reserved prefix, so it differs from every
/// id that does not.
pub proof fn lemma_synth_id_fresh(short_name: Seq<char>, trip_id: Seq<char>, upstream: Seq<char>)
    requires
        !"catenary-"@.is_prefix_of(upstream),
    ensures
        spec_synth_cal_id(short_name, trip_id) != upstream,
{
    let id = spec_synth_cal_id(short_name, trip_id);
    assert(id.subrange(0, "catenary-"@.len() as int) =~= "catenary-"@);
    assert("catenary-"@.is_prefix_of(id));
    if id == upstream {
        assert("catenary-"@.is_prefix_of(upstream));
    }
}

/// Law: an emitted route's agency reference, when it resolved in the
/// input, resolves to an emitted agency: an agency that a surviving
/// route belongs to is never removed.
pub proof fn lemma_route_agency_resolves(f: FeedV, c: ConfigV, i: int, m: int)
    requires
        0 <= i < spec_out_routes(f, c).len(),
        0 <= m < f.agencies.len(),
        f.agencies[m].id is Some,
        f.agencies[m].id == spec_out_routes(f, c)[i].agency_id,
    ensures
        spec_out_agencies(f, c).contains(f.agencies[m]),
{
    let outr = spec_out_routes(f, c);
    assert(outr.contains(outr[i]));
    f.routes.lemma_filter_map_contains(route_pass_fn(f, c), outr[i]);
    let r = choose|r: RouteV| #[trigger]
        f.routes.contains(r) && route_pass_fn(f, c)(r) == Some(outr[i]);
    assert(outr[i].agency_id == r.agency_id);
    assert(!spec_route_excluded(f, c, r));
    if spec_agency_excluded(c, f.agencies[m]) {
        let aid = f.agencies[m].id.unwrap();
        assert(f.agencies[m].id == Some(aid));
        assert(spec_agency_id_excluded(f, c, aid));
        assert(r.agency_id == Some(aid));
        assert(spec_route_excluded(f, c, r));
    }
    lemma_filter_map_in(f.agencies, agency_pass_fn(c), m);
}

/// Law: stops are never removed, and the coordinate override changes
/// no field but name and coordinates: the emitted stop table has one
/// record per input stop, with id and timezone unchanged.
pub proof fn lemma_stops_never_removed(f: FeedV, c: ConfigV)
    ensures
        crate::pipeline::spec_out_stops(f, c).len() == f.stops.len(),
        forall|i: int|
            0 <= i < f.stops.len() ==> (#[trigger] crate::pipeline::spec_out_stops(f, c)[i]).id
                == f.stops[i].id && crate::pipeline::spec_out_stops(f, c)[i].timezone
                == f.stops[i].timezone,
{
}

/// Whether some route with this id belongs to the agency with the given
/// id.
pub open spec fn route_of_agency(f: FeedV, aid: Seq<char>, rid: Seq<char>) -> bool {
    exists|m: int|
        0 <= m < f.routes.len() && (#[trigger] f.routes[m]).id == rid && f.routes[m].agency_id
            == Some(aid)
}

/// Whether some trip with this id runs on a route of the agency with
/// the given id.
pub open spec fn trip_of_agency(f: FeedV, aid: Seq<char>, tid: Seq<char>) -> bool {
    exists|m: int|
        0 <= m < f.trips.len() && (#[trigger] f.trips[m]).id == tid && route_of_agency(
            f,
            aid,
            f.trips[m].route_id,
        )
}

/// Law: removing an agency by name cascades.  No emitted agency carries
/// its id, no emitted route belongs to it, no emitted trip runs on one
/// of its routes, and no emitted stop time belongs to a trip on one of
/// its routes.
pub proof fn lemma_agency_removal_cascades(f: FeedV, c: ConfigV, k: int, aid: Seq<char>)
    requires
        f.wf(),
        0 <= k < f.agencies.len(),
        spec_agency_excluded(c, f.agencies[k]),
        f.agencies[k].id == Some(aid),
    ensures
        forall|i: int|
            0 <= i < spec_out_agencies(f, c).len() ==> (#[trigger] spec_out_agencies(f, c)[i]).id
                != Some(aid),
        forall|i: int|
            0 <= i < spec_out_routes(f, c).len() ==> (
            #[trigger] spec_out_routes(f, c)[i]).agency_id != Some(aid),
        forall|i: int|
            0 <= i < spec_out_trips(f, c).len() ==> !route_of_agency(
                f,
                aid,
                (#[trigger] spec_out_trips(f, c)[i]).route_id,
            ),
        forall|i: int|
            0 <= i < spec_out_stop_times(f, c).len() ==> !trip_of_agency(
                f,
                aid,
                (#[trigger] spec_out_stop_times(f, c)[i]).trip_id,
            ),
{
    let outa = spec_out_agencies(f, c);
    let outr = spec_out_routes(f, c);
    let outt = spec_out_trips(f, c);
    let outs = spec_out_stop_times(f, c);

    assert forall|i: int| 0 <= i < outa.len() implies (#[trigger] outa[i]).id != Some(aid) by {
        assert(outa.contains(outa[i]));
        f.agencies.lemma_filter_map_contains(agency_pass_fn(c), outa[i]);
        let a = choose|a: AgencyV| #[trigger]
            f.agencies.contains(a) && agency_pass_fn(c)(a) == Some(outa[i]);
        let k2 = choose|k2: int| 0 <= k2 < f.agencies.len() && f.agencies[k2] == a;
        if a.id == Some(aid) {
            // id uniqueness forces this to be the excluded agency
            assert(f.agencies[k].id is Some);
            assert(k2 == k);
            assert(spec_agency_excluded(c, a));
        }
    }

    assert forall|i: int| 0 <= i < outr.len() implies (#[trigger] outr[i]).agency_id != Some(aid)
    by {
        assert(outr.contains(outr[i]));
        f.routes.lemma_filter_map_contains(route_pass_fn(f, c), outr[i]);
        let r = choose|r: RouteV| #[trigger]
            f.routes.contains(r) && route_pass_fn(f, c)(r) == Some(outr[i]);
        assert(outr[i].agency_id == r.agency_id);
        if r.agency_id == Some(aid) {
            assert(spec_agency_id_excluded(f, c, aid));
            assert(spec_route_excluded(f, c, r));
        }
    }

    assert forall|i: int| 0 <= i < outt.len() implies !route_of_agency(
        f,
        aid,
        (#[trigger] outt[i]).route_id,
    ) by {
        assert(outt.contains(outt[i]));
        f.trips.lemma_filter_map_contains(trip_pass_fn(f, c), outt[i]);
        let t = choose|t: TripV| #[trigger]
            f.trips.contains(t) && trip_pass_fn(f, c)(t) == Some(outt[i]);
        assert(outt[i].route_id == t.route_id);
        assert(spec_trip_kept(f, c, t));
        if route_of_agency(f, aid, t.route_id) {
            let m = choose|m: int|
                0 <= m < f.routes.len() && (#[trigger] f.routes[m]).id == t.route_id
                    && f.routes[m].agency_id == Some(aid);
            let r0 = spec_find_route(f.routes, t.route_id).unwrap();
            lemma_find_by_some(f.routes, route_key(), t.route_id);
            let m2 = choose|m2: int|
                0 <= m2 < f.routes.len() && f.routes[m2] == r0 && route_key()(f.routes[m2])
                    == t.route_id;
            assert(m == m2);
            assert(r0.agency_id == Some(aid));
            assert(spec_agency_id_excluded(f, c, aid));
            assert(spec_route_excluded(f, c, r0));
        }
    }

    assert forall|i: int| 0 <= i < outs.len() implies !trip_of_agency(
        f,
        aid,
        (#[trigger] outs[i]).trip_id,
    ) by {
        assert(outs.contains(outs[i]));
        f.stop_times.lemma_filter_map_contains(stop_time_pass_fn(f, c), outs[i]);
        let s0 = choose|s0: StopTimeV| #[trigger]
            f.stop_times.contains(s0) && stop_time_pass_fn(f, c)(s0) == Some(outs[i]);
        assert(spec_kept_trip_ids(f, c).contains(outs[i].trip_id));
        f.trips.lemma_filter_map_contains(kept_id_fn(f, c), outs[i].trip_id);
        let t = choose|t: TripV| #[trigger]
            f.trips.contains(t) && kept_id_fn(f, c)(t) == Some(outs[i].trip_id);
        let k3 = choose|k3: int| 0 <= k3 < f.trips.len() && f.trips[k3] == t;
        assert(spec_trip_kept(f, c, t));
        if trip_of_agency(f, aid, outs[i].trip_id) {
            let m = choose|m: int|
                0 <= m < f.trips.len() && (#[trigger] f.trips[m]).id == outs[i].trip_id
                    && route_of_agency(f, aid, f.trips[m].route_id);
            assert(m == k3);
            // now t runs on a route of the excluded agency
            let m3 = choose|m3: int|
                0 <= m3 < f.routes.len() && (#[trigger] f.routes[m3]).id == t.route_id
                    && f.routes[m3].agency_id == Some(aid);
            let r0 = spec_find_route(f.routes, t.route_id).unwrap();
            lemma_find_by_some(f.routes, route_key(), t.route_id);
            let m4 = choose|m4: int|
                0 <= m4 < f.routes.len() && f.routes[m4] == r0 && route_key()(f.routes[m4])
                    == t.route_id;
            assert(m3 == m4);
            assert(spec_agency_id_excluded(f, c, aid));
            assert(spec_route_excluded(f, c, r0));
        }
    }
}

} // verus!
