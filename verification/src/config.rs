//! The immutable rule configuration handed to the pipeline.
//!
//! Every threshold, exclusion list, override and synthesis rule the
//! detectors and corrections consult is an explicit field here, so the
//! pipeline can run under alternate rule sets.

use crate::model::find_by;
use vstd::prelude::*;

verus! {

/// Day-of-week flags to give the synthesized calendar of a trip with
/// this short name.
#[derive(Clone, Debug, PartialEq, Eq)]
pub struct CalendarRule {
    pub trip_short_name: String,
    pub monday: bool,
    pub tuesday: bool,
    pub wednesday: bool,
    pub thursday: bool,
    pub friday: bool,
    pub saturday: bool,
    pub sunday: bool,
}

/// Corrected name and coordinates for one stop with stale data.
#[derive(Clone, Debug, PartialEq, Eq)]
pub struct StopOverride {
    pub stop_id: String,
    pub name: String,
    pub lat_e6: i64,
    pub lon_e6: i64,
}

/// The full rule set of one pipeline run.
#[derive(Clone, Debug)]
pub struct Config {
    /// A consecutive-point jump above this many microdegrees flags a shape.
    pub jump_threshold_e6: i64,
    /// Agencies with these names are dropped, with their routes and trips.
    pub agency_exclude_names: Vec<String>,
    /// Routes with these long names are dropped, with their trips.
    pub route_exclude_long_names: Vec<String>,
    /// Trips of routes with these long names lose their shape reference.
    pub shape_denylist_route_long_names: Vec<String>,
    /// Routes with these long names are reported when flagged for
    /// midnight crossing but never corrected.
    pub exempt_route_long_names: Vec<String>,
    /// Routes of the agency with this name are rebranded, not removed.
    pub rebrand_agency_name: Option<String>,
    /// Short name given to rebranded routes.
    pub rebrand_short_name: String,
    /// Long name given to rebranded routes.
    pub rebrand_long_name: String,
    /// Color given to rebranded routes.
    pub rebrand_color: String,
    /// Within rebranded routes, trips whose short name starts with this
    /// prefix do not actually operate and are dropped.
    pub phantom_short_name_prefix: String,
    /// Per-stop coordinate and name corrections.
    pub stop_overrides: Vec<StopOverride>,
    /// Calendar synthesis rules, keyed by trip short name.
    pub calendar_rules: Vec<CalendarRule>,
}

/// View of a [`CalendarRule`].
#[verifier::ext_equal]
pub struct CalendarRuleV {
    pub trip_short_name: Seq<char>,
    pub monday: bool,
    pub tuesday: bool,
    pub wednesday: bool,
    pub thursday: bool,
    pub friday: bool,
    pub saturday: bool,
    pub sunday: bool,
}

/// View of a [`StopOverride`].
#[verifier::ext_equal]
pub struct StopOverrideV {
    pub stop_id: Seq<char>,
    pub name: Seq<char>,
    pub lat_e6: i64,
    pub lon_e6: i64,
}

/// View of a [`Config`].
#[verifier::ext_equal]
pub struct ConfigV {
    pub jump_threshold_e6: i64,
    pub agency_exclude_names: Seq<Seq<char>>,
    pub route_exclude_long_names: Seq<Seq<char>>,
    pub shape_denylist_route_long_names: Seq<Seq<char>>,
    pub exempt_route_long_names: Seq<Seq<char>>,
    pub rebrand_agency_name: Option<Seq<char>>,
    pub rebrand_short_name: Seq<char>,
    pub rebrand_long_name: Seq<char>,
    pub rebrand_color: Seq<char>,
    pub phantom_short_name_prefix: Seq<char>,
    pub stop_overrides: Seq<StopOverrideV>,
    pub calendar_rules: Seq<CalendarRuleV>,
}

impl DeepView for CalendarRule {
    type V = CalendarRuleV;

    open spec fn deep_view(&self) -> CalendarRuleV {
        CalendarRuleV {
            trip_short_name: self.trip_short_name@,
            monday: self.monday,
            tuesday: self.tuesday,
            wednesday: self.wednesday,
            thursday: self.thursday,
            friday: self.friday,
            saturday: self.saturday,
            sunday: self.sunday,
        }
    }
}

impl DeepView for StopOverride {
    type V = StopOverrideV;

    open spec fn deep_view(&self) -> StopOverrideV {
        StopOverrideV {
            stop_id: self.stop_id@,
            name: self.name@,
            lat_e6: self.lat_e6,
            lon_e6: self.lon_e6,
        }
    }
}

impl DeepView for Config {
    type V = ConfigV;

    open spec fn deep_view(&self) -> ConfigV {
        ConfigV {
            jump_threshold_e6: self.jump_threshold_e6,
            agency_exclude_names: self.agency_exclude_names.deep_view(),
            route_exclude_long_names: self.route_exclude_long_names.deep_view(),
            shape_denylist_route_long_names: self.shape_denylist_route_long_names.deep_view(),
            exempt_route_long_names: self.exempt_route_long_names.deep_view(),
            rebrand_agency_name: self.rebrand_agency_name.deep_view(),
            rebrand_short_name: self.rebrand_short_name@,
            rebrand_long_name: self.rebrand_long_name@,
            rebrand_color: self.rebrand_color@,
            phantom_short_name_prefix: self.phantom_short_name_prefix@,
            stop_overrides: self.stop_overrides.deep_view(),
            calendar_rules: self.calendar_rules.deep_view(),
        }
    }
}

/// The key of a calendar synthesis rule.
pub open spec fn rule_key() -> spec_fn(CalendarRuleV) -> Seq<char> {
    |r: CalendarRuleV| r.trip_short_name
}

/// The key of a stop override.
pub open spec fn override_key() -> spec_fn(StopOverrideV) -> Seq<char> {
    |o: StopOverrideV| o.stop_id
}

/// First synthesis rule for the given trip short name.
pub open spec fn spec_find_rule(rules: Seq<CalendarRuleV>, short_name: Seq<char>) -> Option<
    CalendarRuleV,
> {
    find_by(rules, rule_key(), short_name)
}

/// First override for the given stop id.
pub open spec fn spec_find_override(overrides: Seq<StopOverrideV>, stop_id: Seq<char>) -> Option<
    StopOverrideV,
> {
    find_by(overrides, override_key(), stop_id)
}

/// Looks a synthesis rule up by trip short name.
pub fn find_rule<'a>(rules: &'a Vec<CalendarRule>, short_name: &str) -> (res: Option<
    &'a CalendarRule,
>)
    ensures
        match res {
            Some(r) => spec_find_rule(rules.deep_view(), short_name@) == Some(r.deep_view()),
            None => spec_find_rule(rules.deep_view(), short_name@) is None,
        },
{
    let ghost dv = rules.deep_view();
    proof {
        assert(dv.skip(0) =~= dv);
    }
    let mut i: usize = 0;
    while i < rules.len()
        invariant
            0 <= i <= rules.len(),
            dv == rules.deep_view(),
            find_by(dv, rule_key(), short_name@) == find_by(
                dv.skip(i as int),
                rule_key(),
                short_name@,
            ),
        decreases rules.len() - i,
    {
        proof {
            assert(dv.skip(i as int)[0] == dv[i as int]);
        }
        if crate::strutil::str_eq(rules[i].trip_short_name.as_str(), short_name) {
            proof {
                assert(find_by(dv.skip(i as int), rule_key(), short_name@) == Some(dv[i as int]));
            }
            return Some(&rules[i]);
        }
        proof {
            assert(dv.skip(i as int).drop_first() =~= dv.skip(i as int + 1));
        }
        i += 1;
    }
    proof {
        assert(dv.skip(i as int) =~= Seq::<CalendarRuleV>::empty());
    }
    None
}

/// Looks a stop override up by stop id.
pub fn find_override<'a>(overrides: &'a Vec<StopOverride>, stop_id: &str) -> (res: Option<
    &'a StopOverride,
>)
    ensures
        match res {
            Some(o) => spec_find_override(overrides.deep_view(), stop_id@) == Some(o.deep_view()),
            None => spec_find_override(overrides.deep_view(), stop_id@) is None,
        },
{
    let ghost dv = overrides.deep_view();
    proof {
        assert(dv.skip(0) =~= dv);
    }
    let mut i: usize = 0;
    while i < overrides.len()
        invariant
            0 <= i <= overrides.len(),
            dv == overrides.deep_view(),
            find_by(dv, override_key(), stop_id@) == find_by(
                dv.skip(i as int),
                override_key(),
                stop_id@,
            ),
        decreases overrides.len() - i,
    {
        proof {
            assert(dv.skip(i as int)[0] == dv[i as int]);
        }
        if crate::strutil::str_eq(overrides[i].stop_id.as_str(), stop_id) {
            proof {
                assert(find_by(dv.skip(i as int), override_key(), stop_id@) == Some(dv[i as int]));
            }
            return Some(&overrides[i]);
        }
        proof {
            assert(dv.skip(i as int).drop_first() =~= dv.skip(i as int + 1));
        }
        i += 1;
    }
    proof {
        assert(dv.skip(i as int) =~= Seq::<StopOverrideV>::empty());
    }
    None
}

/// The rule set for the national rail feed the pipeline was written
/// for: geometry threshold of a tenth of a degree, the one exempt
/// route, and the three known calendar synthesis rules.
pub open spec fn spec_amtrak_config() -> ConfigV {
    ConfigV {
        jump_threshold_e6: 100000,
        agency_exclude_names: Seq::empty(),
        route_exclude_long_names: Seq::empty(),
        shape_denylist_route_long_names: Seq::empty(),
        exempt_route_long_names: seq!["Pacific Surfliner"@],
        rebrand_agency_name: None,
        rebrand_short_name: Seq::empty(),
        rebrand_long_name: Seq::empty(),
        rebrand_color: Seq::empty(),
        phantom_short_name_prefix: Seq::empty(),
        stop_overrides: Seq::empty(),
        calendar_rules: seq![
            CalendarRuleV {
                trip_short_name: "2"@,
                monday: true,
                tuesday: false,
                wednesday: false,
                thursday: true,
                friday: false,
                saturday: true,
                sunday: false,
            },
            CalendarRuleV {
                trip_short_name: "343"@,
                monday: false,
                tuesday: false,
                wednesday: false,
                thursday: false,
                friday: false,
                saturday: true,
                sunday: false,
            },
            CalendarRuleV {
                trip_short_name: "422"@,
                monday: true,
                tuesday: false,
                wednesday: false,
                thursday: true,
                friday: false,
                saturday: true,
                sunday: false,
            },
        ],
    }
}

impl Config {
    /// Builds [`spec_amtrak_config`] as a value.
    pub fn amtrak() -> (c: Config)
        ensures
            c.deep_view() == spec_amtrak_config(),
    {
        let mut exempt: Vec<String> = Vec::new();
        exempt.push("Pacific Surfliner".to_owned());
        let mut rules: Vec<CalendarRule> = Vec::new();
        rules.push(
            CalendarRule {
                trip_short_name: "2".to_owned(),
                monday: true,
                tuesday: false,
                wednesday: false,
                thursday: true,
                friday: false,
                saturday: true,
                sunday: false,
            },
        );
        rules.push(
            CalendarRule {
                trip_short_name: "343".to_owned(),
                monday: false,
                tuesday: false,
                wednesday: false,
                thursday: false,
                friday: false,
                saturday: true,
                sunday: false,
            },
        );
        rules.push(
            CalendarRule {
                trip_short_name: "422".to_owned(),
                monday: true,
                tuesday: false,
                wednesday: false,
                thursday: true,
                friday: false,
                saturday: true,
                sunday: false,
            },
        );
        let c = Config {
            jump_threshold_e6: 100000,
            agency_exclude_names: Vec::new(),
            route_exclude_long_names: Vec::new(),
            shape_denylist_route_long_names: Vec::new(),
            exempt_route_long_names: exempt,
            rebrand_agency_name: None,
            rebrand_short_name: String::new(),
            rebrand_long_name: String::new(),
            rebrand_color: String::new(),
            phantom_short_name_prefix: String::new(),
            stop_overrides: Vec::new(),
            calendar_rules: rules,
        };
        proof {
            assert(c.deep_view().exempt_route_long_names =~= seq!["Pacific Surfliner"@]);
            assert(c.deep_view().calendar_rules =~= spec_amtrak_config().calendar_rules);
            assert(c.deep_view().agency_exclude_names =~= Seq::<Seq<char>>::empty());
            assert(c.deep_view().route_exclude_long_names =~= Seq::<Seq<char>>::empty());
            assert(c.deep_view().shape_denylist_route_long_names =~= Seq::<Seq<char>>::empty());
            assert(c.deep_view().stop_overrides =~= Seq::<StopOverrideV>::empty());
            assert(c.deep_view().rebrand_short_name =~= Seq::<char>::empty());
            assert(c.deep_view().rebrand_long_name =~= Seq::<char>::empty());
            assert(c.deep_view().rebrand_color =~= Seq::<char>::empty());
            assert(c.deep_view().phantom_short_name_prefix =~= Seq::<char>::empty());
            assert(c.deep_view() =~= spec_amtrak_config());
        }
        c
    }
}

} // verus!
