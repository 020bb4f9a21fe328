//! Time-zone classification for the midnight-crossing rule.
//!
//! The rule measures departures against US Eastern as the reference
//! zone and knows a grace threshold for Central, Mountain and Pacific;
//! any other zone on a rail trip's first stop is a data error.

use core::str::FromStr;
use vstd::prelude::*;

verus! {

/// A United States time zone, as far as the midnight-crossing rule
/// distinguishes them.
#[derive(Clone, Copy, Debug, PartialEq, Eq, Structural)]
pub enum Zone {
    Eastern,
    Central,
    Mountain,
    Pacific,
    Unsupported,
}

/// The zone an IANA zone name denotes, among the four the rule knows.
pub open spec fn spec_zone_of(name: Seq<char>) -> Zone {
    if name == "America/New_York"@ {
        Zone::Eastern
    } else if name == "America/Chicago"@ {
        Zone::Central
    } else if name == "America/Denver"@ {
        Zone::Mountain
    } else if name == "America/Los_Angeles"@ {
        Zone::Pacific
    } else {
        Zone::Unsupported
    }
}

/// Relies on `chrono_tz::Tz::from_str` and the derived equality of
/// `chrono_tz::Tz`: the parse is an exact lookup of the IANA name in a
/// fixed table, and each of the four names here is the only name mapped
/// to its variant.
#[verifier::external_body]
pub fn zone_of_name(name: &str) -> (z: Zone)
    ensures
        z == spec_zone_of(name@),
{
    match chrono_tz::Tz::from_str(name) {
        Ok(chrono_tz::Tz::America__New_York) => Zone::Eastern,
        Ok(chrono_tz::Tz::America__Chicago) => Zone::Central,
        Ok(chrono_tz::Tz::America__Denver) => Zone::Mountain,
        Ok(chrono_tz::Tz::America__Los_Angeles) => Zone::Pacific,
        _ => Zone::Unsupported,
    }
}

/// Hours of schedule-display grace in a non-reference zone: a rail
/// departure at or before this many hours past midnight is really
/// late-night service misattributed to the wrong calendar day.
pub open spec fn spec_grace_hours(z: Zone) -> u32 {
    match z {
        Zone::Central => 1,
        Zone::Mountain => 2,
        Zone::Pacific => 3,
        _ => 0,
    }
}

/// Grace hours for a supported, non-reference zone.
pub fn grace_hours(z: Zone) -> (h: u32)
    requires
        z == Zone::Central || z == Zone::Mountain || z == Zone::Pacific,
    ensures
        h == spec_grace_hours(z),
{
    match z {
        Zone::Central => 1,
        Zone::Mountain => 2,
        Zone::Pacific => 3,
        _ => 0,
    }
}

} // verus!
