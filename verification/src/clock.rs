//! The activity clock: the one timestamp shared by the listener and the
//! sampler.

use vstd::prelude::*;

verus! {

/// Milliseconds since the Unix epoch.
pub type Timestamp = u128;

/// The time at which activity was last observed, or the start time while
/// none has been observed yet.
///
/// The value is plain data: callers that share it between threads keep it
/// behind a lock, so that every access is one whole `update` or `read`.
#[derive(Clone, Copy, Debug)]
pub struct ActivityClock {
    last_activity: Timestamp,
}

impl View for ActivityClock {
    type V = int;

    closed spec fn view(&self) -> int {
        self.last_activity as int
    }
}

impl ActivityClock {
    /// A clock that starts at `start`.
    pub fn new(start: Timestamp) -> (clock: ActivityClock)
        ensures
            clock@ == start,
    {
        ActivityClock { last_activity: start }
    }

    /// Overwrites the stored time with `t`, whatever was stored before.
    pub fn update(&mut self, t: Timestamp)
        ensures
            final(self)@ == t,
    {
        self.last_activity = t;
    }

    /// The most recently written time.
    pub fn read(&self) -> (t: Timestamp)
        ensures
            t == self@,
    {
        self.last_activity
    }
}

/// One access to the clock, as the lock serializes them.
pub enum ClockOp {
    /// An `update` with the given time.
    Write(Timestamp),
    /// A `read`.
    Read,
}

/// The value that the clock holds after a sequence of accesses, starting
/// from `start`: the latest write wins, reads change nothing.
pub open spec fn value_after(start: int, ops: Seq<ClockOp>) -> int
    decreases ops.len(),
{
    if ops.len() == 0 {
        start
    } else {
        match ops.last() {
            ClockOp::Write(t) => t as int,
            ClockOp::Read => value_after(start, ops.drop_last()),
        }
    }
}

/// What the access at position `i` observes if it is a read: the value
/// that the accesses before it have left in the clock.
pub open spec fn observed(start: int, ops: Seq<ClockOp>, i: int) -> int {
    value_after(start, ops.take(i))
}

/// Whether the access at position `j` is a write of the value `v`.
pub open spec fn writes(ops: Seq<ClockOp>, j: int, v: int) -> bool {
    ops[j] matches ClockOp::Write(t) && t == v
}

/// Whether no access in positions `from..to` is a write.
pub open spec fn no_write_between(ops: Seq<ClockOp>, from: int, to: int) -> bool {
    forall|k: int| from <= k < to ==> #[trigger] ops[k] is Read
}

/// Every read sees a whole value that was really there: either the start
/// value, when nothing was written before it, or the value of the latest
/// write before it. This holds of every serial order of any number of
/// writers and readers.
pub proof fn law_read_sees_latest_write(start: int, ops: Seq<ClockOp>, i: int)
    requires
        0 <= i <= ops.len(),
    ensures
        (no_write_between(ops, 0, i) && observed(start, ops, i) == start) || (exists|j: int|
            0 <= j < i && #[trigger] writes(ops, j, observed(start, ops, i)) && no_write_between(
                ops,
                j + 1,
                i,
            )),
    decreases i,
{
    let seen = ops.take(i);
    if i > 0 {
        assert(seen.last() == ops[i - 1]);
        match ops[i - 1] {
            ClockOp::Write(t) => {
                assert(writes(ops, i - 1, observed(start, ops, i)));
            },
            ClockOp::Read => {
                assert(seen.drop_last() =~= ops.take(i - 1));
                law_read_sees_latest_write(start, ops, i - 1);
                if !(no_write_between(ops, 0, i - 1) && observed(start, ops, i - 1) == start) {
                    let j = choose|j: int|
                        0 <= j < i - 1 && #[trigger] writes(ops, j, observed(start, ops, i - 1))
                            && no_write_between(ops, j + 1, i - 1);
                    assert(writes(ops, j, observed(start, ops, i)));
                    assert(no_write_between(ops, j + 1, i));
                }
            },
        }
    }
}

/// A read directly after a write returns what was written, whatever came
/// before.
pub proof fn law_read_after_write(start: int, ops: Seq<ClockOp>, t: Timestamp)
    ensures
        value_after(start, ops.push(ClockOp::Write(t))) == t,
        value_after(start, ops.push(ClockOp::Read)) == value_after(start, ops),
{
    assert(ops.push(ClockOp::Read).drop_last() =~= ops);
}

} // verus!
