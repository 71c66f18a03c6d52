//! What holds of the sampler over whole runs of ticks.

use vstd::prelude::*;
use crate::sampler::{idle_exceeds, record_count, reports, run, step, SamplerState, Tick};

verus! {

/// Whether every tick of the run read the clock value `c`.
pub open spec fn all_read(ticks: Seq<Tick>, c: int) -> bool {
    forall|i: int| 0 <= i < ticks.len() ==> (#[trigger] ticks[i]).last == c
}

/// Whether some tick of the run saw an idle gap longer than the threshold.
pub open spec fn some_exceeds(ticks: Seq<Tick>, threshold: int) -> bool {
    exists|i: int|
        0 <= i < ticks.len() && idle_exceeds((#[trigger] ticks[i]).now, ticks[i].last, threshold)
}

proof fn lemma_some_exceeds_unfold(ticks: Seq<Tick>, threshold: int)
    requires
        ticks.len() > 0,
    ensures
        some_exceeds(ticks, threshold) <==> (some_exceeds(ticks.drop_last(), threshold)
            || idle_exceeds(ticks.last().now, ticks.last().last, threshold)),
{
    let front = ticks.drop_last();
    if some_exceeds(ticks, threshold) {
        let i = choose|i: int|
            0 <= i < ticks.len() && idle_exceeds(
                (#[trigger] ticks[i]).now,
                ticks[i].last,
                threshold,
            );
        if i < front.len() {
            assert(front[i] == ticks[i]);
        }
    }
    if some_exceeds(front, threshold) {
        let i = choose|i: int|
            0 <= i < front.len() && idle_exceeds(
                (#[trigger] front[i]).now,
                front[i].last,
                threshold,
            );
        assert(ticks[i] == front[i]);
    }
    if idle_exceeds(ticks.last().now, ticks.last().last, threshold) {
        assert(ticks[ticks.len() - 1] == ticks.last());
    }
}

/// A run never changes the threshold.
pub proof fn lemma_run_keeps_threshold(s: SamplerState, ticks: Seq<Tick>)
    ensures
        run(s, ticks).threshold == s.threshold,
    decreases ticks.len(),
{
    if ticks.len() > 0 {
        lemma_run_keeps_threshold(s, ticks.drop_last());
    }
}

/// While the clock stays at one value `c`, the run is decided by whether `c`
/// was already reported and whether any tick saw the threshold exceeded.
proof fn lemma_one_clock_value(s: SamplerState, ticks: Seq<Tick>, c: int)
    requires
        all_read(ticks, c),
    ensures
        c != s.reported && some_exceeds(ticks, s.threshold) ==> record_count(s, ticks) == 1 && run(
            s,
            ticks,
        ) == (SamplerState { threshold: s.threshold, reported: c }),
        c == s.reported || !some_exceeds(ticks, s.threshold) ==> record_count(s, ticks) == 0
            && run(s, ticks) == s,
    decreases ticks.len(),
{
    if ticks.len() > 0 {
        let front = ticks.drop_last();
        assert forall|i: int| 0 <= i < front.len() implies (#[trigger] front[i]).last == c by {
            assert(front[i] == ticks[i]);
        }
        assert(ticks[ticks.len() - 1].last == c);
        lemma_one_clock_value(s, front, c);
        lemma_some_exceeds_unfold(ticks, s.threshold);
    }
}

/// No duplicate records: while the activity clock does not change from one
/// tick to the next, the run produces at most one record, however many
/// ticks it has.
pub proof fn law_one_record_per_episode(s: SamplerState, ticks: Seq<Tick>)
    requires
        forall|i: int, j: int|
            0 <= i < ticks.len() && 0 <= j < ticks.len() ==> (#[trigger] ticks[i]).last == (
            #[trigger] ticks[j]).last,
    ensures
        record_count(s, ticks) <= 1,
{
    if ticks.len() > 0 {
        let c = ticks[0].last;
        assert(all_read(ticks, c));
        lemma_one_clock_value(s, ticks, c);
    }
}

/// Re-arming: once the activity clock holds a value `c` that has not been
/// reported, a run of ticks that all read `c`, one of which sees the
/// threshold exceeded, produces exactly one record and leaves `c` marked as
/// reported.
pub proof fn law_new_activity_rearms(s: SamplerState, ticks: Seq<Tick>, c: int)
    requires
        c != s.reported,
        all_read(ticks, c),
        some_exceeds(ticks, s.threshold),
    ensures
        record_count(s, ticks) == 1,
        run(s, ticks).reported == c,
{
    lemma_one_clock_value(s, ticks, c);
}

/// Once a tick has reported a clock value, a following tick that reads the
/// same value does not report it again, however long the gap has grown.
pub proof fn law_reported_once(s: SamplerState, first: Tick, second: Tick)
    requires
        first.last == second.last,
        reports(s, first),
    ensures
        !reports(step(s, first), second),
{
}

/// Threshold boundary: an idle gap of exactly the threshold produces no
/// record; a gap of one millisecond more does, unless that clock value was
/// already reported.
pub proof fn law_threshold_boundary(s: SamplerState, last: int)
    ensures
        !reports(s, Tick { now: last + s.threshold, last }),
        last != s.reported ==> reports(s, Tick { now: last + s.threshold + 1, last }),
        last == s.reported ==> !reports(s, Tick { now: last + s.threshold + 1, last }),
{
}

/// While no tick sees an idle gap longer than the threshold, nothing is
/// recorded and the sampler's state does not change.
pub proof fn law_quiet_while_active(s: SamplerState, ticks: Seq<Tick>)
    requires
        !some_exceeds(ticks, s.threshold),
    ensures
        record_count(s, ticks) == 0,
        run(s, ticks) == s,
    decreases ticks.len(),
{
    if ticks.len() > 0 {
        lemma_some_exceeds_unfold(ticks, s.threshold);
        law_quiet_while_active(s, ticks.drop_last());
    }
}

/// Running two stretches of ticks one after the other is running their
/// concatenation: the states compose and the records add up.
pub proof fn law_runs_compose(s: SamplerState, a: Seq<Tick>, b: Seq<Tick>)
    ensures
        run(s, a + b) == run(run(s, a), b),
        record_count(s, a + b) == record_count(s, a) + record_count(run(s, a), b),
    decreases b.len(),
{
    if b.len() == 0 {
        assert(a + b =~= a);
    } else {
        assert((a + b).drop_last() =~= a + b.drop_last());
        assert((a + b).last() == b.last());
        law_runs_compose(s, a, b.drop_last());
    }
}

/// The marker is either the one the run started with, or a clock value that
/// some tick of the run read with the threshold exceeded.
pub proof fn law_marker_was_read(s: SamplerState, ticks: Seq<Tick>)
    ensures
        run(s, ticks).reported == s.reported || exists|i: int|
            0 <= i < ticks.len() && (#[trigger] ticks[i]).last == run(s, ticks).reported
                && idle_exceeds(ticks[i].now, ticks[i].last, s.threshold),
    decreases ticks.len(),
{
    if ticks.len() > 0 {
        let front = ticks.drop_last();
        let t = ticks.last();
        law_marker_was_read(s, front);
        lemma_run_keeps_threshold(s, front);
        if reports(run(s, front), t) {
            assert(ticks[ticks.len() - 1] == t);
        } else if run(s, front).reported != s.reported {
            let i = choose|i: int|
                0 <= i < front.len() && (#[trigger] front[i]).last == run(s, front).reported
                    && idle_exceeds(front[i].now, front[i].last, s.threshold);
            assert(ticks[i] == front[i]);
        }
    }
}

} // verus!
