//! The in-memory table model: the seven relational tables of a feed and
//! their mathematical views.
//!
//! Each record type has a view struct (`RouteV`, `TripV`, ...) whose
//! string fields are `Seq<char>`; contracts throughout the crate speak
//! of these views, reached through `deep_view()`.
//!
//! Geographic coordinates are carried in microdegrees (degrees times one
//! million), so the geometry rules are exact integer arithmetic.

use vstd::prelude::*;

verus! {

/// A calendar date, as the feed writes it: year, month and day numbers.
#[derive(Clone, Copy, Debug, PartialEq, Eq, Structural)]
pub struct GtfsDate {
    pub year: u32,
    pub month: u32,
    pub day: u32,
}

/// The mode of a route, as far as the pipeline distinguishes them.
#[derive(Clone, Copy, Debug, PartialEq, Eq, Structural)]
pub enum RouteType {
    Rail,
    Bus,
    Other,
}

/// An operator of routes.  The id is optional in the feed but unique
/// among the agencies that carry one.
#[derive(Clone, Debug, PartialEq, Eq)]
pub struct Agency {
    pub id: Option<String>,
    pub name: String,
}

/// A line of service, referencing its agency by id.
#[derive(Clone, Debug, PartialEq, Eq)]
pub struct Route {
    pub id: String,
    pub agency_id: Option<String>,
    pub short_name: String,
    pub long_name: String,
    pub route_type: RouteType,
    pub color: String,
}

/// A weekly service pattern with a validity date range.
#[derive(Clone, Debug, PartialEq, Eq)]
pub struct Calendar {
    pub id: String,
    pub monday: bool,
    pub tuesday: bool,
    pub wednesday: bool,
    pub thursday: bool,
    pub friday: bool,
    pub saturday: bool,
    pub sunday: bool,
    pub start_date: GtfsDate,
    pub end_date: GtfsDate,
}

/// One run of a vehicle over a route under a service calendar.
#[derive(Clone, Debug, PartialEq, Eq)]
pub struct Trip {
    pub id: String,
    pub route_id: String,
    pub service_id: String,
    pub shape_id: Option<String>,
    pub trip_short_name: Option<String>,
    pub trip_headsign: Option<String>,
}

/// A scheduled call of a trip at a stop.  `departure_time` counts
/// seconds since midnight and may exceed 86400 for next-day service.
#[derive(Clone, Debug, PartialEq, Eq)]
pub struct StopTime {
    pub trip_id: String,
    pub stop_id: String,
    pub departure_time: u32,
    pub sequence: u32,
}

/// A boarding location.  The timezone, when present, is an IANA zone
/// name; the pipeline reads it only on the first stop of a rail trip.
#[derive(Clone, Debug, PartialEq, Eq)]
pub struct Stop {
    pub id: String,
    pub name: String,
    pub lat_e6: i64,
    pub lon_e6: i64,
    pub timezone: Option<String>,
}

/// One vertex of a shape polyline, in microdegrees.
#[derive(Clone, Copy, Debug, PartialEq, Eq, Structural)]
pub struct ShapePoint {
    pub lat_e6: i64,
    pub lon_e6: i64,
}

/// An ordered polyline describing the path of a route.
#[derive(Clone, Debug, PartialEq, Eq)]
pub struct Shape {
    pub id: String,
    pub points: Vec<ShapePoint>,
}

/// The seven loaded tables of one feed.
#[derive(Clone, Debug)]
pub struct Feed {
    pub agencies: Vec<Agency>,
    pub routes: Vec<Route>,
    pub calendars: Vec<Calendar>,
    pub trips: Vec<Trip>,
    pub stop_times: Vec<StopTime>,
    pub stops: Vec<Stop>,
    pub shapes: Vec<Shape>,
}

/// View of an [`Agency`].
#[verifier::ext_equal]
pub struct AgencyV {
    pub id: Option<Seq<char>>,
    pub name: Seq<char>,
}

/// View of a [`Route`].
#[verifier::ext_equal]
pub struct RouteV {
    pub id: Seq<char>,
    pub agency_id: Option<Seq<char>>,
    pub short_name: Seq<char>,
    pub long_name: Seq<char>,
    pub route_type: RouteType,
    pub color: Seq<char>,
}

/// View of a [`Calendar`].
#[verifier::ext_equal]
pub struct CalendarV {
    pub id: Seq<char>,
    pub monday: bool,
    pub tuesday: bool,
    pub wednesday: bool,
    pub thursday: bool,
    pub friday: bool,
    pub saturday: bool,
    pub sunday: bool,
    pub start_date: GtfsDate,
    pub end_date: GtfsDate,
}

/// View of a [`Trip`].
#[verifier::ext_equal]
pub struct TripV {
    pub id: Seq<char>,
    pub route_id: Seq<char>,
    pub service_id: Seq<char>,
    pub shape_id: Option<Seq<char>>,
    pub trip_short_name: Option<Seq<char>>,
    pub trip_headsign: Option<Seq<char>>,
}

/// View of a [`StopTime`].
#[verifier::ext_equal]
pub struct StopTimeV {
    pub trip_id: Seq<char>,
    pub stop_id: Seq<char>,
    pub departure_time: u32,
    pub sequence: u32,
}

/// View of a [`Stop`].
#[verifier::ext_equal]
pub struct StopV {
    pub id: Seq<char>,
    pub name: Seq<char>,
    pub lat_e6: i64,
    pub lon_e6: i64,
    pub timezone: Option<Seq<char>>,
}

/// View of a [`Shape`].
#[verifier::ext_equal]
pub struct ShapeV {
    pub id: Seq<char>,
    pub points: Seq<ShapePoint>,
}

/// View of a [`Feed`].
#[verifier::ext_equal]
pub struct FeedV {
    pub agencies: Seq<AgencyV>,
    pub routes: Seq<RouteV>,
    pub calendars: Seq<CalendarV>,
    pub trips: Seq<TripV>,
    pub stop_times: Seq<StopTimeV>,
    pub stops: Seq<StopV>,
    pub shapes: Seq<ShapeV>,
}

impl DeepView for ShapePoint {
    type V = ShapePoint;

    open spec fn deep_view(&self) -> ShapePoint {
        *self
    }
}

impl DeepView for Agency {
    type V = AgencyV;

    open spec fn deep_view(&self) -> AgencyV {
        AgencyV { id: self.id.deep_view(), name: self.name@ }
    }
}

impl DeepView for Route {
    type V = RouteV;

    open spec fn deep_view(&self) -> RouteV {
        RouteV {
            id: self.id@,
            agency_id: self.agency_id.deep_view(),
            short_name: self.short_name@,
            long_name: self.long_name@,
            route_type: self.route_type,
            color: self.color@,
        }
    }
}

impl DeepView for Calendar {
    type V = CalendarV;

    open spec fn deep_view(&self) -> CalendarV {
        CalendarV {
            id: self.id@,
            monday: self.monday,
            tuesday: self.tuesday,
            wednesday: self.wednesday,
            thursday: self.thursday,
            friday: self.friday,
            saturday: self.saturday,
            sunday: self.sunday,
            start_date: self.start_date,
            end_date: self.end_date,
        }
    }
}

impl DeepView for Trip {
    type V = TripV;

    open spec fn deep_view(&self) -> TripV {
        TripV {
            id: self.id@,
            route_id: self.route_id@,
            service_id: self.service_id@,
            shape_id: self.shape_id.deep_view(),
            trip_short_name: self.trip_short_name.deep_view(),
            trip_headsign: self.trip_headsign.deep_view(),
        }
    }
}

impl DeepView for StopTime {
    type V = StopTimeV;

    open spec fn deep_view(&self) -> StopTimeV {
        StopTimeV {
            trip_id: self.trip_id@,
            stop_id: self.stop_id@,
            departure_time: self.departure_time,
            sequence: self.sequence,
        }
    }
}

impl DeepView for Stop {
    type V = StopV;

    open spec fn deep_view(&self) -> StopV {
        StopV {
            id: self.id@,
            name: self.name@,
            lat_e6: self.lat_e6,
            lon_e6: self.lon_e6,
            timezone: self.timezone.deep_view(),
        }
    }
}

impl DeepView for Shape {
    type V = ShapeV;

    open spec fn deep_view(&self) -> ShapeV {
        ShapeV { id: self.id@, points: self.points.deep_view() }
    }
}

impl DeepView for Feed {
    type V = FeedV;

    open spec fn deep_view(&self) -> FeedV {
        FeedV {
            agencies: self.agencies.deep_view(),
            routes: self.routes.deep_view(),
            calendars: self.calendars.deep_view(),
            trips: self.trips.deep_view(),
            stop_times: self.stop_times.deep_view(),
            stops: self.stops.deep_view(),
            shapes: self.shapes.deep_view(),
        }
    }
}

/// First record, scanning left to right, whose key equals `id`.
pub open spec fn find_by<T>(s: Seq<T>, key: spec_fn(T) -> Seq<char>, id: Seq<char>) -> Option<T>
    decreases s.len(),
{
    if s.len() == 0 {
        None
    } else if key(s[0]) == id {
        Some(s[0])
    } else {
        find_by(s.drop_first(), key, id)
    }
}

/// A found record stands in the sequence and carries the key sought.
pub proof fn lemma_find_by_some<T>(s: Seq<T>, key: spec_fn(T) -> Seq<char>, id: Seq<char>)
    requires
        find_by(s, key, id) is Some,
    ensures
        exists|i: int|
            0 <= i < s.len() && s[i] == find_by(s, key, id).unwrap() && key(s[i]) == id,
    decreases s.len(),
{
    if s.len() == 0 {
    } else if key(s[0]) == id {
        assert(s[0] == find_by(s, key, id).unwrap() && key(s[0]) == id);
    } else {
        lemma_find_by_some(s.drop_first(), key, id);
        let i = choose|i: int|
            0 <= i < s.drop_first().len() && s.drop_first()[i] == find_by(
                s.drop_first(),
                key,
                id,
            ).unwrap() && key(s.drop_first()[i]) == id;
        assert(s[i + 1] == s.drop_first()[i]);
    }
}

/// A record mapped to a value by `f` puts that value into the
/// `filter_map` of its sequence.
pub proof fn lemma_filter_map_in<T, U>(s: Seq<T>, f: spec_fn(T) -> Option<U>, i: int)
    requires
        0 <= i < s.len(),
        f(s[i]) is Some,
    ensures
        s.filter_map(f).contains(f(s[i]).unwrap()),
    decreases s.len(),
{
    let out = s.filter_map(f);
    if i == s.len() - 1 {
        assert(out == s.drop_last().filter_map(f) + seq![f(s[i]).unwrap()]);
        assert(out[out.len() - 1] == f(s[i]).unwrap());
    } else {
        lemma_filter_map_in(s.drop_last(), f, i);
        let rest = s.drop_last().filter_map(f);
        let j = choose|j: int| 0 <= j < rest.len() && rest[j] == f(s[i]).unwrap();
        match f(s.last()) {
            Some(b) => {
                assert(out == rest + seq![b]);
                assert(out[j] == f(s[i]).unwrap());
            },
            None => {
                assert(out == rest);
            },
        }
    }
}

/// The key of a route record.
pub open spec fn route_key() -> spec_fn(RouteV) -> Seq<char> {
    |r: RouteV| r.id
}

/// The key of a calendar record.
pub open spec fn calendar_key() -> spec_fn(CalendarV) -> Seq<char> {
    |c: CalendarV| c.id
}

/// The key of a stop record.
pub open spec fn stop_key() -> spec_fn(StopV) -> Seq<char> {
    |s: StopV| s.id
}

/// First route with the given id.
pub open spec fn spec_find_route(routes: Seq<RouteV>, id: Seq<char>) -> Option<RouteV> {
    find_by(routes, route_key(), id)
}

/// First calendar with the given id.
pub open spec fn spec_find_calendar(calendars: Seq<CalendarV>, id: Seq<char>) -> Option<
    CalendarV,
> {
    find_by(calendars, calendar_key(), id)
}

/// First stop with the given id.
pub open spec fn spec_find_stop(stops: Seq<StopV>, id: Seq<char>) -> Option<StopV> {
    find_by(stops, stop_key(), id)
}

impl FeedV {
    /// Well-formedness of the loaded tables: ids are unique within each
    /// keyed table (for agencies, among those that carry one), and every
    /// shape has at least one point.
    pub open spec fn wf(self) -> bool {
        &&& forall|i: int, j: int|
            #![trigger self.routes[i], self.routes[j]]
            0 <= i < j < self.routes.len() ==> self.routes[i].id != self.routes[j].id
        &&& forall|i: int, j: int|
            #![trigger self.calendars[i], self.calendars[j]]
            0 <= i < j < self.calendars.len() ==> self.calendars[i].id != self.calendars[j].id
        &&& forall|i: int, j: int|
            #![trigger self.trips[i], self.trips[j]]
            0 <= i < j < self.trips.len() ==> self.trips[i].id != self.trips[j].id
        &&& forall|i: int, j: int|
            #![trigger self.stops[i], self.stops[j]]
            0 <= i < j < self.stops.len() ==> self.stops[i].id != self.stops[j].id
        &&& forall|i: int, j: int|
            #![trigger self.shapes[i], self.shapes[j]]
            0 <= i < j < self.shapes.len() ==> self.shapes[i].id != self.shapes[j].id
        &&& forall|i: int, j: int|
            #![trigger self.agencies[i], self.agencies[j]]
            0 <= i < j < self.agencies.len() ==> !(self.agencies[i].id is Some
                && self.agencies[i].id == self.agencies[j].id)
        &&& forall|i: int| 0 <= i < self.shapes.len() ==> #[trigger] self.shapes[i].points.len() >= 1
    }
}

/// Looks a route up by id.
pub fn find_route<'a>(routes: &'a Vec<Route>, id: &str) -> (res: Option<&'a Route>)
    ensures
        match res {
            Some(r) => spec_find_route(routes.deep_view(), id@) == Some(r.deep_view()),
            None => spec_find_route(routes.deep_view(), id@) is None,
        },
{
    let ghost dv = routes.deep_view();
    proof {
        assert(dv.skip(0) =~= dv);
    }
    let mut i: usize = 0;
    while i < routes.len()
        invariant
            0 <= i <= routes.len(),
            dv == routes.deep_view(),
            find_by(dv, route_key(), id@) == find_by(dv.skip(i as int), route_key(), id@),
        decreases routes.len() - i,
    {
        proof {
            assert(dv.skip(i as int)[0] == dv[i as int]);
        }
        if crate::strutil::str_eq(routes[i].id.as_str(), id) {
            proof {
                assert(find_by(dv.skip(i as int), route_key(), id@) == Some(dv[i as int]));
            }
            return Some(&routes[i]);
        }
        proof {
            assert(dv.skip(i as int).drop_first() =~= dv.skip(i as int + 1));
        }
        i += 1;
    }
    proof {
        assert(dv.skip(i as int) =~= Seq::<RouteV>::empty());
    }
    None
}

/// Looks a calendar up by id.
pub fn find_calendar<'a>(calendars: &'a Vec<Calendar>, id: &str) -> (res: Option<&'a Calendar>)
    ensures
        match res {
            Some(c) => spec_find_calendar(calendars.deep_view(), id@) == Some(c.deep_view()),
            None => spec_find_calendar(calendars.deep_view(), id@) is None,
        },
{
    let ghost dv = calendars.deep_view();
    proof {
        assert(dv.skip(0) =~= dv);
    }
    let mut i: usize = 0;
    while i < calendars.len()
        invariant
            0 <= i <= calendars.len(),
            dv == calendars.deep_view(),
            find_by(dv, calendar_key(), id@) == find_by(dv.skip(i as int), calendar_key(), id@),
        decreases calendars.len() - i,
    {
        proof {
            assert(dv.skip(i as int)[0] == dv[i as int]);
        }
        if crate::strutil::str_eq(calendars[i].id.as_str(), id) {
            proof {
                assert(find_by(dv.skip(i as int), calendar_key(), id@) == Some(dv[i as int]));
            }
            return Some(&calendars[i]);
        }
        proof {
            assert(dv.skip(i as int).drop_first() =~= dv.skip(i as int + 1));
        }
        i += 1;
    }
    proof {
        assert(dv.skip(i as int) =~= Seq::<CalendarV>::empty());
    }
    None
}

/// Looks a stop up by id.
pub fn find_stop<'a>(stops: &'a Vec<Stop>, id: &str) -> (res: Option<&'a Stop>)
    ensures
        match res {
            Some(s) => spec_find_stop(stops.deep_view(), id@) == Some(s.deep_view()),
            None => spec_find_stop(stops.deep_view(), id@) is None,
        },
{
    let ghost dv = stops.deep_view();
    proof {
        assert(dv.skip(0) =~= dv);
    }
    let mut i: usize = 0;
    while i < stops.len()
        invariant
            0 <= i <= stops.len(),
            dv == stops.deep_view(),
            find_by(dv, stop_key(), id@) == find_by(dv.skip(i as int), stop_key(), id@),
        decreases stops.len() - i,
    {
        proof {
            assert(dv.skip(i as int)[0] == dv[i as int]);
        }
        if crate::strutil::str_eq(stops[i].id.as_str(), id) {
            proof {
                assert(find_by(dv.skip(i as int), stop_key(), id@) == Some(dv[i as int]));
            }
            return Some(&stops[i]);
        }
        proof {
            assert(dv.skip(i as int).drop_first() =~= dv.skip(i as int + 1));
        }
        i += 1;
    }
    proof {
        assert(dv.skip(i as int) =~= Seq::<StopV>::empty());
    }
    None
}

/// The first stop time of the trip, in table order, whose stop id
/// resolves to no stop: the trip's first dangling stop reference.
pub open spec fn spec_first_dangling_stop(
    stop_times: Seq<StopTimeV>,
    stops: Seq<StopV>,
    trip_id: Seq<char>,
) -> Option<Seq<char>>
    decreases stop_times.len(),
{
    if stop_times.len() == 0 {
        None
    } else if stop_times[0].trip_id == trip_id && spec_find_stop(stops, stop_times[0].stop_id)
        is None {
        Some(stop_times[0].stop_id)
    } else {
        spec_first_dangling_stop(stop_times.drop_first(), stops, trip_id)
    }
}

/// Finds the trip's first dangling stop reference, as
/// `spec_first_dangling_stop` says.
pub fn first_dangling_stop(
    stop_times: &Vec<StopTime>,
    stops: &Vec<Stop>,
    trip_id: &str,
) -> (res: Option<String>)
    ensures
        match res {
            Some(sid) => spec_first_dangling_stop(
                stop_times.deep_view(),
                stops.deep_view(),
                trip_id@,
            ) == Some(sid@),
            None => spec_first_dangling_stop(stop_times.deep_view(), stops.deep_view(), trip_id@)
                is None,
        },
{
    let ghost dv = stop_times.deep_view();
    let ghost sv = stops.deep_view();
    proof {
        assert(dv.skip(0) =~= dv);
    }
    let mut i: usize = 0;
    while i < stop_times.len()
        invariant
            0 <= i <= stop_times.len(),
            dv == stop_times.deep_view(),
            sv == stops.deep_view(),
            spec_first_dangling_stop(dv, sv, trip_id@) == spec_first_dangling_stop(
                dv.skip(i as int),
                sv,
                trip_id@,
            ),
        decreases stop_times.len() - i,
    {
        proof {
            assert(dv.skip(i as int)[0] == dv[i as int]);
        }
        if crate::strutil::str_eq(stop_times[i].trip_id.as_str(), trip_id) && find_stop(
            stops,
            stop_times[i].stop_id.as_str(),
        ).is_none() {
            proof {
                assert(spec_first_dangling_stop(dv.skip(i as int), sv, trip_id@) == Some(
                    dv[i as int].stop_id,
                ));
            }
            return Some(stop_times[i].stop_id.clone());
        }
        proof {
            assert(dv.skip(i as int).drop_first() =~= dv.skip(i as int + 1));
        }
        i += 1;
    }
    proof {
        assert(dv.skip(i as int) =~= Seq::<StopTimeV>::empty());
    }
    None
}

/// The stop time at which a trip first departs: among the stop times of
/// the trip, the one with the smallest sequence index, the earliest in
/// table order on a tie.
pub open spec fn spec_first_stop_time(stop_times: Seq<StopTimeV>, trip_id: Seq<char>) -> Option<
    StopTimeV,
>
    decreases stop_times.len(),
{
    if stop_times.len() == 0 {
        None
    } else {
        let rest = spec_first_stop_time(stop_times.drop_first(), trip_id);
        if stop_times[0].trip_id == trip_id {
            match rest {
                None => Some(stop_times[0]),
                Some(r) => if r.sequence < stop_times[0].sequence {
                    Some(r)
                } else {
                    Some(stop_times[0])
                },
            }
        } else {
            rest
        }
    }
}

/// Finds the first departure of a trip, as `spec_first_stop_time` says.
pub fn first_stop_time_of<'a>(stop_times: &'a Vec<StopTime>, trip_id: &str) -> (res: Option<
    &'a StopTime,
>)
    ensures
        match res {
            Some(st) => spec_first_stop_time(stop_times.deep_view(), trip_id@) == Some(
                st.deep_view(),
            ),
            None => spec_first_stop_time(stop_times.deep_view(), trip_id@) is None,
        },
{
    let ghost dv = stop_times.deep_view();
    let mut i: usize = stop_times.len();
    let mut best: Option<usize> = None;
    while i > 0
        invariant
            i <= stop_times.len(),
            dv == stop_times.deep_view(),
            match best {
                Some(b) => b < stop_times.len() && spec_first_stop_time(
                    dv.skip(i as int),
                    trip_id@,
                ) == Some(dv[b as int]),
                None => spec_first_stop_time(dv.skip(i as int), trip_id@) is None,
            },
        decreases i,
    {
        i -= 1;
        proof {
            assert(dv.skip(i as int)[0] == dv[i as int]);
            assert(dv.skip(i as int).drop_first() =~= dv.skip(i as int + 1));
        }
        if crate::strutil::str_eq(stop_times[i].trip_id.as_str(), trip_id) {
            match best {
                None => {
                    best = Some(i);
                },
                Some(b) => {
                    if stop_times[b].sequence < stop_times[i].sequence {
                        // the later-scanned record keeps the smaller sequence
                    } else {
                        best = Some(i);
                    }
                },
            }
        }
    }
    proof {
        assert(dv.skip(0) =~= dv);
    }
    match best {
        Some(b) => Some(&stop_times[b]),
        None => None,
    }
}

} // verus!
