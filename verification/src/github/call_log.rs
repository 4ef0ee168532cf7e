//! The log of the latest GitHub CLI calls, shown on the diagnostics screen.
use vstd::prelude::*;
use crate::domain::time::Timestamp;

verus! {

/// How many calls the log keeps.
pub const CALL_LOG_CAPACITY: usize = 100;

/// One call of the GitHub CLI.
#[derive(Debug)]
pub struct GhCall {
    pub timestamp: Timestamp,
    pub command: String,
    pub exit_code: i32,
    pub duration_ms: u64,
    pub output: String,
}

/// The latest calls, oldest first, at most `CALL_LOG_CAPACITY` of them.
#[derive(Debug)]
pub struct CallLog {
    calls: Vec<GhCall>,
}

impl View for CallLog {
    type V = Seq<GhCall>;

    closed spec fn view(&self) -> Seq<GhCall> {
        self.calls@
    }
}

impl CallLog {
    #[verifier::type_invariant]
    closed spec fn inv(self) -> bool {
        self.calls@.len() <= CALL_LOG_CAPACITY
    }

    /// An empty log.
    pub fn new() -> (r: CallLog)
        ensures
            r@ == Seq::<GhCall>::empty(),
    {
        CallLog { calls: Vec::new() }
    }

    /// Records a call; when the log is full the oldest call goes.
    pub fn record(&mut self, call: GhCall)
        ensures
            final(self)@ == recorded(old(self)@, call),
            final(self)@.len() <= CALL_LOG_CAPACITY,
    {
        proof { use_type_invariant(&*self); }
        let mut calls: Vec<GhCall> = Vec::new();
        std::mem::swap(&mut calls, &mut self.calls);
        if calls.len() >= CALL_LOG_CAPACITY {
            let _ = calls.remove(0);
        }
        calls.push(call);
        self.calls = calls;
    }

    /// The number of calls held.
    pub fn len(&self) -> (n: usize)
        ensures
            n == self@.len(),
    {
        self.calls.len()
    }

    /// The call at `i` counting from the newest (0 is the newest).
    pub fn newest(&self, i: usize) -> (r: Option<&GhCall>)
        ensures
            i < self@.len() ==> r == Some(&self@[self@.len() - 1 - i]),
            i >= self@.len() ==> r is None,
    {
        if i < self.calls.len() {
            Some(&self.calls[self.calls.len() - 1 - i])
        } else {
            None
        }
    }
}

/// What `CallLog::record` leaves: the calls before with `call` appended, the
/// oldest one dropped when the log was full.
pub open spec fn recorded(before: Seq<GhCall>, call: GhCall) -> Seq<GhCall> {
    if before.len() >= CALL_LOG_CAPACITY {
        before.drop_first().push(call)
    } else {
        before.push(call)
    }
}

/// A call read back right after it was recorded is the newest one, the calls
/// recorded before keep their order behind it, and the log stays within its
/// capacity.
pub proof fn lemma_record_then_newest(before: Seq<GhCall>, call: GhCall)
    requires
        before.len() <= CALL_LOG_CAPACITY,
    ensures
        recorded(before, call).len() > 0,
        recorded(before, call).last() == call,
        recorded(before, call).len() <= CALL_LOG_CAPACITY,
        recorded(before, call).drop_last() == (if before.len() >= CALL_LOG_CAPACITY {
            before.drop_first()
        } else {
            before
        }),
{
    assert(recorded(before, call).drop_last() =~= (if before.len() >= CALL_LOG_CAPACITY {
        before.drop_first()
    } else {
        before
    }));
}

/// Archive files larger than this many bytes are rotated before appending.
pub const ARCHIVE_ROTATE_BYTES: u64 = 1_048_576;

/// An archive file of `size` bytes is rotated before the next entry is
/// appended: it holds more than a mebibyte.
pub fn archive_needs_rotation(size: u64) -> (b: bool)
    ensures
        b == (size > ARCHIVE_ROTATE_BYTES),
{
    size > ARCHIVE_ROTATE_BYTES
}

} // verus!
