//! Emission helpers: the textual form of corrected records handed to
//! the table sink.

use crate::model::{Calendar, CalendarV, GtfsDate};
use crate::strutil::{
    spec_dec_digits, spec_fixed_digits, u32_to_four_digits, u32_to_string, u32_to_two_digits,
};
use vstd::prelude::*;
use vstd::string::StringExecFns;

verus! {

/// The textual form of a day flag.
pub open spec fn spec_bool_str(b: bool) -> Seq<char> {
    if b {
        "true"@
    } else {
        "false"@
    }
}

/// One day flag as text.
pub fn bool_str(b: bool) -> (r: &'static str)
    ensures
        r@ == spec_bool_str(b),
{
    if b {
        "true"
    } else {
        "false"
    }
}

/// The year of a date as the tables write it: at least four digits,
/// zero-padded on the left below 1000.
pub open spec fn spec_year_str(year: u32) -> Seq<char> {
    if year >= 1000 {
        spec_dec_digits(year as nat)
    } else {
        spec_fixed_digits(year as nat, 4)
    }
}

/// The YYYYMMDD date form the feed's tables use: the year, then the
/// month and day as two digits each, zero-padded.
pub open spec fn spec_date_str(d: GtfsDate) -> Seq<char> {
    spec_year_str(d.year) + spec_fixed_digits(d.month as nat, 2) + spec_fixed_digits(
        d.day as nat,
        2,
    )
}

/// Renders a date for the calendar table, as `spec_date_str` says.
pub fn date_to_gtfs_str(d: &GtfsDate) -> (r: String)
    ensures
        r@ == spec_date_str(*d),
{
    let mut s = if d.year >= 1000 {
        u32_to_string(d.year)
    } else {
        u32_to_four_digits(d.year)
    };
    let m = u32_to_two_digits(d.month);
    s.append(m.as_str());
    let day = u32_to_two_digits(d.day);
    s.append(day.as_str());
    s
}

/// The comma-separated line of one calendar record: id, the seven day
/// flags, and the two dates.
pub open spec fn spec_calendar_line(c: CalendarV) -> Seq<char> {
    c.id + ","@ + spec_bool_str(c.monday) + ","@ + spec_bool_str(c.tuesday) + ","@ + spec_bool_str(
        c.wednesday,
    ) + ","@ + spec_bool_str(c.thursday) + ","@ + spec_bool_str(c.friday) + ","@ + spec_bool_str(
        c.saturday,
    ) + ","@ + spec_bool_str(c.sunday) + ","@ + spec_date_str(c.start_date) + ","@ + spec_date_str(
        c.end_date,
    )
}

/// Renders one calendar record as the line to add to the calendar
/// table, as `spec_calendar_line` says.
pub fn calendar_to_string_to_add(calendar: &Calendar) -> (r: String)
    ensures
        r@ == spec_calendar_line(calendar.deep_view()),
{
    let mut s = calendar.id.clone();
    s.append(",");
    s.append(bool_str(calendar.monday));
    s.append(",");
    s.append(bool_str(calendar.tuesday));
    s.append(",");
    s.append(bool_str(calendar.wednesday));
    s.append(",");
    s.append(bool_str(calendar.thursday));
    s.append(",");
    s.append(bool_str(calendar.friday));
    s.append(",");
    s.append(bool_str(calendar.saturday));
    s.append(",");
    s.append(bool_str(calendar.sunday));
    s.append(",");
    let start = date_to_gtfs_str(&calendar.start_date);
    s.append(start.as_str());
    s.append(",");
    let end = date_to_gtfs_str(&calendar.end_date);
    s.append(end.as_str());
    s
}

} // verus!
