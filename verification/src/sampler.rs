//! The idle sampler: on each tick it decides whether the current idle
//! episode has newly crossed the threshold.

use vstd::prelude::*;
use crate::clock::Timestamp;
use crate::record::{record_at, record_for};

verus! {

/// What one sample tick observes: the time of the tick and the value read
/// from the activity clock at that time.
pub struct Tick {
    pub now: int,
    pub last: int,
}

/// The sampler as a mathematical value.
pub struct SamplerState {
    /// Idle threshold in milliseconds.
    pub threshold: int,
    /// The activity-clock value that was last reported, zero before the
    /// first report.
    pub reported: int,
}

/// The state of a sampler that has reported nothing yet.
pub open spec fn fresh(threshold: int) -> SamplerState {
    SamplerState { threshold, reported: 0 }
}

/// Whether the gap between `now` and `last` is strictly longer than
/// `threshold`.
pub open spec fn idle_exceeds(now: int, last: int, threshold: int) -> bool {
    now - last > threshold
}

/// Whether a tick produces a record: the clock value has not been reported
/// yet and the idle gap is longer than the threshold.
pub open spec fn reports(s: SamplerState, t: Tick) -> bool {
    t.last != s.reported && idle_exceeds(t.now, t.last, s.threshold)
}

/// The state after a tick: a reporting tick moves the marker to the clock
/// value it read, any other tick changes nothing.
pub open spec fn step(s: SamplerState, t: Tick) -> SamplerState {
    if reports(s, t) {
        SamplerState { threshold: s.threshold, reported: t.last }
    } else {
        s
    }
}

/// The state after a sequence of ticks, taken in order.
pub open spec fn run(s: SamplerState, ticks: Seq<Tick>) -> SamplerState
    decreases ticks.len(),
{
    if ticks.len() == 0 {
        s
    } else {
        step(run(s, ticks.drop_last()), ticks.last())
    }
}

/// The number of records that a sequence of ticks produces.
pub open spec fn record_count(s: SamplerState, ticks: Seq<Tick>) -> nat
    decreases ticks.len(),
{
    if ticks.len() == 0 {
        0
    } else {
        let before = run(s, ticks.drop_last());
        let earlier = record_count(s, ticks.drop_last());
        if reports(before, ticks.last()) {
            earlier + 1
        } else {
            earlier
        }
    }
}

/// Why a tick that owes a record could not produce it.
#[derive(Clone, Copy, Debug, PartialEq, Eq)]
pub enum SampleError {
    /// The time of detection has no calendar time stamp.
    TimeOutOfRange,
}

/// The sampler's private state: the configured threshold and the marker of
/// the last reported episode.
#[derive(Clone, Copy, Debug)]
pub struct IdleSampler {
    threshold: u128,
    reported: Timestamp,
}

impl View for IdleSampler {
    type V = SamplerState;

    closed spec fn view(&self) -> SamplerState {
        SamplerState { threshold: self.threshold as int, reported: self.reported as int }
    }
}

impl IdleSampler {
    /// A sampler with the given threshold in milliseconds that has reported
    /// nothing yet.
    pub fn new(threshold: u128) -> (sampler: IdleSampler)
        ensures
            sampler@ == fresh(threshold as int),
    {
        IdleSampler { threshold, reported: 0 }
    }

    /// The idle threshold in milliseconds.
    pub fn threshold(&self) -> (ms: u128)
        ensures
            ms == self@.threshold,
    {
        self.threshold
    }

    /// The clock value of the last reported episode, zero before the first.
    pub fn last_reported(&self) -> (marker: Timestamp)
        ensures
            marker == self@.reported,
    {
        self.reported
    }

    /// Takes one sample: `now` is the time of the tick, `last` the value
    /// read from the activity clock. Returns whether a record is due, and
    /// if so remembers `last` as reported.
    pub fn sample(&mut self, now: Timestamp, last: Timestamp) -> (due: bool)
        ensures
            due == reports(old(self)@, Tick { now: now as int, last: last as int }),
            final(self)@ == step(old(self)@, Tick { now: now as int, last: last as int }),
    {
        let due = last != self.reported && now > last && now - last > self.threshold;
        if due {
            self.reported = last;
        }
        due
    }

    /// One whole tick: takes the sample and, where a record is due, renders
    /// the line to append to the log, stamped with the time of detection
    /// `now`. The marker moves whether or not the line could be rendered.
    pub fn tick(&mut self, now: Timestamp, last: Timestamp) -> (out: Result<
        Option<String>,
        SampleError,
    >)
        ensures
            final(self)@ == step(old(self)@, Tick { now: now as int, last: last as int }),
            !reports(old(self)@, Tick { now: now as int, last: last as int }) ==> out == Ok::<
                Option<String>,
                SampleError,
            >(None),
            reports(old(self)@, Tick { now: now as int, last: last as int }) ==> match out {
                Ok(Some(line)) => record_at(now as int) == Some(line@),
                Ok(None) => false,
                Err(SampleError::TimeOutOfRange) => record_at(now as int) is None,
            },
    {
        if self.sample(now, last) {
            match record_for(now) {
                Some(line) => Ok(Some(line)),
                None => Err(SampleError::TimeOutOfRange),
            }
        } else {
            Ok(None)
        }
    }
}

} // verus!
