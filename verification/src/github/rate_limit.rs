//! The last known GitHub API rate limit.
use vstd::prelude::*;
use crate::domain::pr::RateLimitStatus;

verus! {

/// Holds the rate limit most recently reported.
#[derive(Debug)]
pub struct RateLimitTracker {
    remaining: u32,
    limit: u32,
    reset_at: u64,
}

impl RateLimitTracker {
    /// The status the tracker holds.
    pub closed spec fn spec_status(&self) -> RateLimitStatus {
        RateLimitStatus { remaining: self.remaining, limit: self.limit, reset_at: self.reset_at }
    }

    /// Before any report: 5000 of 5000 calls left, no reset time.
    pub fn new() -> (r: RateLimitTracker)
        ensures
            r.spec_status() == (RateLimitStatus { remaining: 5000, limit: 5000, reset_at: 0 }),
    {
        RateLimitTracker { remaining: 5000, limit: 5000, reset_at: 0 }
    }

    /// Records a new report.
    pub fn update(&mut self, status: &RateLimitStatus)
        ensures
            final(self).spec_status() == *status,
    {
        self.remaining = status.remaining;
        self.limit = status.limit;
        self.reset_at = status.reset_at;
    }

    /// The calls left.
    pub fn get_remaining(&self) -> (r: u32)
        ensures
            r == self.spec_status().remaining,
    {
        self.remaining
    }

    /// The whole status.
    pub fn get_status(&self) -> (r: RateLimitStatus)
        ensures
            r == self.spec_status(),
    {
        RateLimitStatus { remaining: self.remaining, limit: self.limit, reset_at: self.reset_at }
    }
}

} // verus!
