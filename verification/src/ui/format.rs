//! Relative times for the list ("5m", "2h 10m", "3d 5h").
use vstd::prelude::*;
use crate::domain::time::{Timestamp, spec_parse_rfc3339, spec_span_whole_secs, span_nanos, parse_rfc3339, now_utc};
use crate::util::text::{decimal, decimal_string, push_str};

verus! {

/// The text for an age of `seconds` (negative ages count as 0): "now" under
/// a minute, minutes under an hour, hours and minutes under a day, days and
/// hours under a week, else days.
pub open spec fn spec_age_text(seconds: int) -> Seq<char> {
    let s = if seconds < 0 { 0 } else { seconds };
    let minutes = s / 60;
    let hours = minutes / 60;
    let days = hours / 24;
    if s < 60 {
        "now"@
    } else if minutes < 60 {
        decimal(minutes as nat) + "m"@
    } else if hours < 24 {
        decimal(hours as nat) + "h "@ + decimal((minutes % 60) as nat) + "m"@
    } else if days < 7 {
        decimal(days as nat) + "d "@ + decimal((hours % 24) as nat) + "h"@
    } else {
        decimal(days as nat) + "d"@
    }
}

/// The relative time of an RFC 3339 text at `now`; the text itself when it
/// does not parse.
pub open spec fn spec_relative_time(iso: Seq<char>, now: Timestamp) -> Seq<char> {
    match spec_parse_rfc3339(iso) {
        Some(t) => spec_age_text(spec_span_whole_secs(now, t)),
        None => iso,
    }
}

fn age_text(seconds: i128) -> (r: String)
    ensures
        r@ == spec_age_text(seconds as int),
{
    let s: u128 = if seconds < 0 { 0 } else { seconds as u128 };
    let minutes = s / 60;
    let hours = minutes / 60;
    let days = hours / 24;
    if s < 60 {
        String::from_str("now")
    } else if minutes < 60 {
        let mut out = decimal_string(minutes);
        push_str(&mut out, "m");
        out
    } else if hours < 24 {
        let mut out = decimal_string(hours);
        push_str(&mut out, "h ");
        push_str(&mut out, decimal_string(minutes % 60).as_str());
        push_str(&mut out, "m");
        out
    } else if days < 7 {
        let mut out = decimal_string(days);
        push_str(&mut out, "d ");
        push_str(&mut out, decimal_string(hours % 24).as_str());
        push_str(&mut out, "h");
        out
    } else {
        let mut out = decimal_string(days);
        push_str(&mut out, "d");
        out
    }
}

/// The span from `earlier` to `later` in whole seconds, rounded toward zero.
fn span_whole_secs(later: Timestamp, earlier: Timestamp) -> (r: i128)
    ensures
        r == spec_span_whole_secs(later, earlier),
{
    let n = span_nanos(later, earlier);
    if n >= 0 {
        n / 1_000_000_000
    } else {
        -((-n) / 1_000_000_000)
    }
}

/// The relative time of an RFC 3339 text at `now` (see `spec_relative_time`).
pub fn format_relative_time_at(iso_str: &str, now: Timestamp) -> (r: String)
    requires
        now.wf(),
    ensures
        r@ == spec_relative_time(iso_str@, now),
{
    match parse_rfc3339(iso_str) {
        Some(t) => {
            let secs = span_whole_secs(now, t);
            age_text(secs)
        },
        None => String::from_str(iso_str),
    }
}

/// The relative time of an RFC 3339 text at the current time.
pub fn format_relative_time(iso_str: &str) -> (r: String)
    ensures
        exists|now: Timestamp| now.wf() && r@ == spec_relative_time(iso_str@, now),
{
    let now = now_utc();
    format_relative_time_at(iso_str, now)
}

} // verus!
