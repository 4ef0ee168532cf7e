//! Instants in time as plain values, and the calls into `chrono` that parse
//! and produce them.
use vstd::prelude::*;

verus! {

/// Seconds in one minute.
pub const SECS_PER_MINUTE: i64 = 60;

/// Nanoseconds in one second.
pub const NANOS_PER_SEC: i64 = 1_000_000_000;

/// The earliest Unix timestamp (in seconds) that `chrono::DateTime::from_timestamp`
/// accepts (the start of -262143-01-01).
pub const MIN_TIMESTAMP_SECS: i64 = -8_334_601_228_800;

/// The latest Unix timestamp (in seconds) that `chrono` can represent.
pub const MAX_TIMESTAMP_SECS: i64 = 8_210_266_876_799;

/// A UTC instant: whole seconds since the Unix epoch and the nanoseconds
/// past that second. As in `chrono`, `nanos` is at least one second only
/// while a leap second is being represented.
#[derive(Clone, Copy, Debug, PartialEq, Eq, Structural)]
pub struct Timestamp {
    pub secs: i64,
    pub nanos: u32,
}

impl Timestamp {
    /// The nanosecond field is below two seconds, as `chrono` keeps it.
    pub open spec fn wf(self) -> bool {
        self.nanos < 2 * NANOS_PER_SEC
    }

    /// Strict order of instants: by seconds, then by nanoseconds.
    pub open spec fn spec_before(self, other: Timestamp) -> bool {
        self.secs < other.secs || (self.secs == other.secs && self.nanos < other.nanos)
    }

    /// `self` comes strictly before `other`.
    pub fn before(&self, other: &Timestamp) -> (r: bool)
        ensures
            r == self.spec_before(*other),
    {
        self.secs < other.secs || (self.secs == other.secs && self.nanos < other.nanos)
    }

    /// The later of two instants (the second one when they are equal).
    pub open spec fn spec_later(self, other: Timestamp) -> Timestamp {
        if other.spec_before(self) {
            self
        } else {
            other
        }
    }
}

/// The signed length, in nanoseconds, of the span from `earlier` to `later`,
/// counted the way `chrono` subtracts two UTC instants: whole days, plus the
/// difference of the times of day, where a leap second on one side counts as
/// one more second.
pub open spec fn spec_span_nanos(later: Timestamp, earlier: Timestamp) -> int {
    let day_a = later.secs as int / 86400;
    let day_b = earlier.secs as int / 86400;
    let tod_a = later.secs as int % 86400;
    let tod_b = earlier.secs as int % 86400;
    let secs = if tod_a > tod_b && earlier.nanos >= NANOS_PER_SEC {
        tod_a - tod_b + 1
    } else if tod_a < tod_b && later.nanos >= NANOS_PER_SEC {
        tod_a - tod_b - 1
    } else {
        tod_a - tod_b
    };
    ((day_a - day_b) * 86400 + secs) * NANOS_PER_SEC + (later.nanos as int - earlier.nanos as int)
}

/// At least `minutes` whole minutes have passed from `earlier` to `later`.
pub open spec fn spec_minutes_elapsed(later: Timestamp, earlier: Timestamp, minutes: int) -> bool {
    spec_span_nanos(later, earlier) >= minutes * SECS_PER_MINUTE * NANOS_PER_SEC
}

/// The span from `earlier` to `later` in whole seconds, rounded toward zero.
pub open spec fn spec_span_whole_secs(later: Timestamp, earlier: Timestamp) -> int {
    let n = spec_span_nanos(later, earlier);
    if n >= 0 {
        n / (NANOS_PER_SEC as int)
    } else {
        -((-n) / (NANOS_PER_SEC as int))
    }
}

/// Splits a count of seconds into whole days and the seconds into the last
/// day, rounding the days toward negative infinity.
fn split_days(secs: i64) -> (r: (i128, i128))
    ensures
        r.0 == secs as int / 86400,
        r.1 == secs as int % 86400,
{
    let shifted: u128 = (secs as i128 + 86400 * 0x8000_0000_0000) as u128;
    let q: u128 = shifted / 86400;
    let m: u128 = shifted % 86400;
    proof {
        let k: int = 0x8000_0000_0000;
        let a: int = secs as int;
        let q0 = a / 86400;
        let r0 = a % 86400;
        vstd::arithmetic::div_mod::lemma_fundamental_div_mod(a, 86400);
        assert(a + 86400 * k == 86400 * (q0 + k) + r0) by (nonlinear_arith)
            requires a == 86400 * q0 + r0;
        vstd::arithmetic::div_mod::lemma_div_multiples_vanish_fancy(q0 + k, r0, 86400);
        vstd::arithmetic::div_mod::lemma_mod_multiples_vanish(q0 + k, r0, 86400);
        vstd::arithmetic::div_mod::lemma_small_mod(r0 as nat, 86400);
    }
    ((q as i128) - 0x8000_0000_0000, m as i128)
}

/// Computes `spec_span_nanos`.
pub fn span_nanos(later: Timestamp, earlier: Timestamp) -> (r: i128)
    ensures
        r == spec_span_nanos(later, earlier),
{
    let (day_a, tod_a) = split_days(later.secs);
    let (day_b, tod_b) = split_days(earlier.secs);
    let secs: i128 = if tod_a > tod_b && earlier.nanos >= 1_000_000_000 {
        tod_a - tod_b + 1
    } else if tod_a < tod_b && later.nanos >= 1_000_000_000 {
        tod_a - tod_b - 1
    } else {
        tod_a - tod_b
    };
    ((day_a - day_b) * 86400 + secs) * 1_000_000_000 + (later.nanos as i128 - earlier.nanos as i128)
}

/// What `chrono` parses from an RFC 3339 text, as a UTC instant; `None`
/// where it refuses the text.
pub uninterp spec fn spec_parse_rfc3339(s: Seq<char>) -> Option<Timestamp>;

/// Calls `chrono::DateTime::parse_from_rfc3339` and converts the result to
/// UTC. Trusted: the result is the named value for the text, and an accepted
/// text gives a nanosecond field below two seconds (chrono's documented range).
#[verifier::external_body]
pub(crate) fn parse_rfc3339(s: &str) -> (r: Option<Timestamp>)
    ensures
        r == spec_parse_rfc3339(s@),
        r matches Some(t) ==> t.wf(),
{
    match chrono::DateTime::parse_from_rfc3339(s) {
        Ok(dt) => {
            let utc = dt.with_timezone(&chrono::Utc);
            Some(Timestamp { secs: utc.timestamp(), nanos: utc.timestamp_subsec_nanos() })
        },
        Err(_) => None,
    }
}

/// Calls `chrono::Utc::now`. Trusted: only that the nanosecond field is below
/// two seconds; the instant itself depends on the clock.
#[verifier::external_body]
pub(crate) fn now_utc() -> (r: Timestamp)
    ensures
        r.wf(),
{
    let now = chrono::Utc::now();
    Timestamp { secs: now.timestamp(), nanos: now.timestamp_subsec_nanos() }
}

} // verus!
