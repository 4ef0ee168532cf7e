//! The decisions of the polling loop: which query to run on each tick, when
//! a query is due, how the rate limit slows polling, and the age cutoff
//! added to searches.
use vstd::prelude::*;
use crate::domain::time::{Timestamp, MIN_TIMESTAMP_SECS, MAX_TIMESTAMP_SECS};
use crate::util::text::{chars_of, parse_u64_chars, spec_parse_u64, push_str};

verus! {

/// What `parse_duration` gives for an interval text, in seconds: a number
/// followed by `s`, a number followed by `m` (minutes), or a bare number.
pub open spec fn spec_parse_duration(s: Seq<char>) -> Option<u64> {
    if s.len() > 0 && s.last() == 's' {
        spec_parse_u64(s.drop_last())
    } else if s.len() > 0 && s.last() == 'm' {
        match spec_parse_u64(s.drop_last()) {
            Some(m) => Some((m * 60) as u64),
            None => None,
        }
    } else {
        spec_parse_u64(s)
    }
}

/// A minute count in the text whose seconds would not fit in a `u64`.
pub open spec fn duration_overflows(s: Seq<char>) -> bool {
    s.len() > 0 && s.last() == 'm' && (spec_parse_u64(s.drop_last()) matches Some(m) && m * 60 > u64::MAX)
}

/// Parses a query interval ("60s", "5m", "10") into seconds.
pub fn parse_duration(s: &str) -> (r: Option<u64>)
    requires
        !duration_overflows(s@),
    ensures
        r == spec_parse_duration(s@),
{
    let cs = chars_of(s);
    let n = cs.len();
    if n > 0 && cs[n - 1] == 's' {
        let mut body = cs;
        body.pop();
        assert(body@ =~= s@.drop_last());
        parse_u64_chars(&body)
    } else if n > 0 && cs[n - 1] == 'm' {
        let mut body = cs;
        body.pop();
        assert(body@ =~= s@.drop_last());
        match parse_u64_chars(&body) {
            Some(m) => Some(m * 60),
            None => None,
        }
    } else {
        parse_u64_chars(&cs)
    }
}

/// The text `chrono` writes for the UTC date of a Unix timestamp with the
/// format "%Y-%m-%d".
pub uninterp spec fn spec_format_ymd(secs: i64) -> Seq<char>;

/// Calls `chrono::DateTime::from_timestamp` and formats the date with
/// "%Y-%m-%d". Trusted: the text is the named date text of the timestamp;
/// `requires` keeps the timestamp in chrono's range, where the conversion
/// succeeds.
#[verifier::external_body]
fn format_ymd(secs: i64) -> (r: String)
    requires
        MIN_TIMESTAMP_SECS <= secs <= MAX_TIMESTAMP_SECS,
    ensures
        r@ == spec_format_ymd(secs),
{
    match chrono::DateTime::from_timestamp(secs, 0) {
        Some(dt) => dt.format("%Y-%m-%d").to_string(),
        None => String::new(),
    }
}

/// The search with an `updated:>=` qualifier for the date `max_age_days`
/// days before `now`; unchanged when there is no limit or it is 0.
pub open spec fn spec_apply_age_cutoff(query: Seq<char>, max_age_days: Option<u32>, now: Timestamp) -> Seq<char> {
    match max_age_days {
        None => query,
        Some(days) => if days == 0 {
            query
        } else {
            query + " updated:>="@ + spec_format_ymd((now.secs - days * 86400) as i64)
        },
    }
}

/// The cutoff lies within `chrono`'s range (before it, the subtraction panics).
pub open spec fn cutoff_in_range(max_age_days: Option<u32>, now: Timestamp) -> bool {
    match max_age_days {
        Some(days) => days == 0 || (MIN_TIMESTAMP_SECS <= now.secs - days * 86400 && now.secs <= MAX_TIMESTAMP_SECS),
        None => true,
    }
}

/// Adds the age cutoff to a search (see `spec_apply_age_cutoff`).
pub fn apply_age_cutoff(query: &str, max_age_days: Option<u32>, now: Timestamp) -> (r: String)
    requires
        cutoff_in_range(max_age_days, now),
    ensures
        r@ == spec_apply_age_cutoff(query@, max_age_days, now),
{
    match max_age_days {
        None => String::from_str(query),
        Some(days) => {
            if days == 0 {
                return String::from_str(query);
            }
            let cutoff = now.secs - (days as i64) * 86400;
            let mut out = String::from_str(query);
            push_str(&mut out, " updated:>=");
            push_str(&mut out, format_ymd(cutoff).as_str());
            assert(out@ =~= query@ + " updated:>="@ + spec_format_ymd(cutoff));
            out
        },
    }
}

/// What a tick starts with.
#[derive(Debug, Clone, Copy, PartialEq, Eq, Structural)]
pub enum TickStart {
    /// No query is configured: wait for the next tick.
    Idle,
    /// The first query is due: a poll cycle starts (announce it, check the
    /// poll lease and the rate limit).
    StartCycle,
    /// Continue the cycle with the current query.
    Continue,
}

/// What the rate limit asks of the cycle.
#[derive(Debug, Clone, Copy, PartialEq, Eq, Structural)]
pub enum RateAction {
    /// Fewer than 50 calls left: warn and pause polling until the limit
    /// resets (see `pause_secs`).
    Pause,
    /// Fewer than 100 calls left: warn and go on, with the intervals between
    /// polls doubled (see `effective_interval`).
    SlowDown,
    /// Go on.
    Proceed,
}

/// The rate limit decision for the calls left.
pub open spec fn spec_rate_action(remaining: u32) -> RateAction {
    if remaining < 50 { RateAction::Pause } else if remaining < 100 { RateAction::SlowDown } else { RateAction::Proceed }
}

/// The rate limit decision (see `spec_rate_action`).
pub fn rate_action(remaining: u32) -> (r: RateAction)
    ensures
        r == spec_rate_action(remaining),
{
    if remaining < 50 {
        RateAction::Pause
    } else if remaining < 100 {
        RateAction::SlowDown
    } else {
        RateAction::Proceed
    }
}

/// How long polling pauses, at `now` (Unix seconds), for a limit that
/// resets at `reset_at` (Unix seconds): until the reset, or not at all once
/// it has passed.
pub open spec fn spec_pause_secs(reset_at: u64, now: i64) -> u64 {
    if now < 0 {
        reset_at
    } else if reset_at > now {
        (reset_at - now) as u64
    } else {
        0
    }
}

/// How long polling pauses (see `spec_pause_secs`).
pub fn pause_secs(reset_at: u64, now: i64) -> (r: u64)
    ensures
        r == spec_pause_secs(reset_at, now),
{
    if now < 0 {
        reset_at
    } else if reset_at > now as u64 {
        reset_at - now as u64
    } else {
        0
    }
}

/// The interval between polls of a query whose own interval is `secs`: the
/// same, or doubled while fewer than 100 calls are left (the largest
/// interval where doubling would not fit).
pub open spec fn spec_effective_interval(secs: u64, remaining: u32) -> u64 {
    if remaining < 100 {
        if secs <= u64::MAX / 2 { (secs * 2) as u64 } else { u64::MAX }
    } else {
        secs
    }
}

/// The interval between polls of a query (see `spec_effective_interval`).
pub fn effective_interval(secs: u64, remaining: u32) -> (r: u64)
    ensures
        r == spec_effective_interval(secs, remaining),
{
    if remaining < 100 {
        if secs <= u64::MAX / 2 { secs * 2 } else { u64::MAX }
    } else {
        secs
    }
}

/// The wait, in seconds, before calling GitHub again after `failures`
/// failed attempts of one call: 1 after the first, 4 after the second;
/// after more (or none) there is no retry and the error is reported.
pub open spec fn spec_retry_delay(failures: u32) -> Option<u64> {
    if failures == 1 {
        Some(1)
    } else if failures == 2 {
        Some(4)
    } else {
        None
    }
}

/// The wait before a retry (see `spec_retry_delay`).
pub fn retry_delay(failures: u32) -> (r: Option<u64>)
    ensures
        r == spec_retry_delay(failures),
{
    if failures == 1 {
        Some(1)
    } else if failures == 2 {
        Some(4)
    } else {
        None
    }
}

/// The round-robin position of the polling loop and when each query last ran
/// (milliseconds of a monotonic clock).
#[derive(Debug)]
pub struct PollSchedule {
    query_index: usize,
    first_cycle_complete: bool,
    last_polled: Vec<Option<u64>>,
}

impl PollSchedule {
    /// The query the loop is on.
    pub closed spec fn spec_index(&self) -> int {
        self.query_index as int
    }

    /// The first full cycle has been reported done.
    pub closed spec fn spec_first_done(&self) -> bool {
        self.first_cycle_complete
    }

    /// When each query last ran.
    pub closed spec fn spec_last_polled(&self) -> Seq<Option<u64>> {
        self.last_polled@
    }

    /// The schedule's invariant: the position is a query of the list.
    pub open spec fn wf(&self) -> bool {
        self.spec_index() < self.spec_last_polled().len() || (self.spec_index() == 0)
    }

    /// A schedule for `num_queries` queries, none polled yet.
    pub fn new(num_queries: usize) -> (r: PollSchedule)
        ensures
            r.spec_index() == 0,
            !r.spec_first_done(),
            r.spec_last_polled() == Seq::new(num_queries as nat, |i: int| None::<u64>),
            r.wf(),
    {
        let mut v: Vec<Option<u64>> = Vec::new();
        let mut i: usize = 0;
        while i < num_queries
            invariant
                i <= num_queries,
                v@ == Seq::new(i as nat, |k: int| None::<u64>),
            decreases num_queries - i,
        {
            v.push(None);
            assert(v@ =~= Seq::new((i + 1) as nat, |k: int| None::<u64>));
            i = i + 1;
        }
        PollSchedule { query_index: 0, first_cycle_complete: false, last_polled: v }
    }

    /// The query to look at.
    pub fn query_index(&self) -> (r: usize)
        ensures
            r == self.spec_index(),
    {
        self.query_index
    }

    /// How a tick starts: idle without queries, a new cycle at the first
    /// query, else the next query of the cycle.
    pub fn begin_tick(&self) -> (r: TickStart)
        ensures
            self.spec_last_polled().len() == 0 ==> r == TickStart::Idle,
            self.spec_last_polled().len() > 0 && self.spec_index() == 0 ==> r == TickStart::StartCycle,
            self.spec_last_polled().len() > 0 && self.spec_index() != 0 ==> r == TickStart::Continue,
    {
        if self.last_polled.len() == 0 {
            TickStart::Idle
        } else if self.query_index == 0 {
            TickStart::StartCycle
        } else {
            TickStart::Continue
        }
    }

    /// The query at the current position is due at `now_ms`: it never ran,
    /// or at least `interval_secs` seconds have passed since it last ran.
    pub fn is_due(&self, now_ms: u64, interval_secs: u64) -> (r: bool)
        requires
            self.spec_index() < self.spec_last_polled().len(),
        ensures
            r == (match self.spec_last_polled()[self.spec_index()] {
                None => true,
                Some(last) => now_ms as int - last as int >= interval_secs as int * 1000,
            }),
    {
        match self.last_polled[self.query_index] {
            None => true,
            Some(last) => {
                if now_ms < last {
                    (now_ms as i128) - (last as i128) >= (interval_secs as i128) * 1000
                } else {
                    ((now_ms - last) as u128) >= (interval_secs as u128) * 1000
                }
            },
        }
    }

    /// Records that the current query ran at `now_ms`.
    pub fn record_poll(&mut self, now_ms: u64)
        requires
            old(self).spec_index() < old(self).spec_last_polled().len(),
        ensures
            final(self).spec_index() == old(self).spec_index(),
            final(self).spec_first_done() == old(self).spec_first_done(),
            final(self).spec_last_polled() == old(self).spec_last_polled().update(old(self).spec_index(), Some(now_ms)),
    {
        let i = self.query_index;
        self.last_polled.set(i, Some(now_ms));
    }

    /// Moves to the next query (wrapping to the first). Returns true exactly
    /// when this completes the first full cycle, which is then reported done.
    pub fn advance(&mut self) -> (initial_sync_done: bool)
        requires
            old(self).spec_last_polled().len() > 0,
            old(self).spec_index() < old(self).spec_last_polled().len(),
        ensures
            final(self).spec_last_polled() == old(self).spec_last_polled(),
            final(self).spec_index() == (old(self).spec_index() + 1) % (old(self).spec_last_polled().len() as int),
            initial_sync_done == (final(self).spec_index() == 0 && !old(self).spec_first_done()),
            final(self).spec_first_done() == (old(self).spec_first_done() || initial_sync_done),
            final(self).wf(),
    {
        let n = self.last_polled.len();
        let i = self.query_index;
        assert(i < n);
        self.query_index = if i + 1 == n { 0 } else { i + 1 };
        assert(self.query_index == (i + 1) % (n as int)) by {
            if i + 1 == n {
                vstd::arithmetic::div_mod::lemma_mod_self_0(n as int);
            } else {
                vstd::arithmetic::div_mod::lemma_small_mod((i + 1) as nat, n as nat);
            }
        }
        if self.query_index == 0 && !self.first_cycle_complete {
            self.first_cycle_complete = true;
            return true;
        }
        false
    }

    /// Another instance holds the poll lease: move on and report the first
    /// cycle done if it was not yet. Returns true when it is reported now.
    pub fn skip_cycle(&mut self) -> (initial_sync_done: bool)
        requires
            old(self).spec_last_polled().len() > 0,
            old(self).spec_index() < old(self).spec_last_polled().len(),
        ensures
            final(self).spec_last_polled() == old(self).spec_last_polled(),
            final(self).spec_index() == (old(self).spec_index() + 1) % (old(self).spec_last_polled().len() as int),
            initial_sync_done == !old(self).spec_first_done(),
            final(self).spec_first_done(),
            final(self).wf(),
    {
        let n = self.last_polled.len();
        let i = self.query_index;
        assert(i < n);
        self.query_index = if i + 1 == n { 0 } else { i + 1 };
        assert(self.query_index == (i + 1) % (n as int)) by {
            if i + 1 == n {
                vstd::arithmetic::div_mod::lemma_mod_self_0(n as int);
            } else {
                vstd::arithmetic::div_mod::lemma_small_mod((i + 1) as nat, n as nat);
            }
        }
        if !self.first_cycle_complete {
            self.first_cycle_complete = true;
            return true;
        }
        false
    }
}

} // verus!
