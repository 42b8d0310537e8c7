//! The pacing primitive that keeps loop iterations evenly spaced.
//!
//! The clock only computes durations; the surrounding application measures
//! the work time of the current iteration and sleeps for what the clock
//! returns. Work time is subtracted from the sleep duration, never
//! accumulated as drift.

use vstd::prelude::*;

verus! {

/// A clock pacing a loop at a target rate. `interval_ns` is the intended
/// distance between two consecutive ticks, in nanoseconds.
#[derive(Clone, Copy, Debug, PartialEq, Eq, Structural)]
pub struct FpsClock {
    pub interval_ns: u64,
}

/// How long a tick must sleep after `work` nanoseconds of work so that the
/// whole tick spans `interval` nanoseconds; zero once the work alone has
/// consumed the interval.
pub open spec fn spec_sleep(interval: int, work: int) -> int {
    if work >= interval {
        0
    } else {
        interval - work
    }
}

/// The total time a run of ticks spans: each tick performs its work and then
/// sleeps for the remainder of the interval.
pub open spec fn total_tick_time(interval: int, works: Seq<int>) -> int
    decreases works.len(),
{
    if works.len() == 0 {
        0
    } else {
        works[0] + spec_sleep(interval, works[0]) + total_tick_time(interval, works.drop_first())
    }
}

impl FpsClock {
    /// A clock ticking `fps` times per second.
    pub fn new(fps: u32) -> (r: Self)
        requires
            fps >= 1,
        ensures
            r.interval_ns == 1_000_000_000u64 / fps as u64,
    {
        Self { interval_ns: 1_000_000_000u64 / fps as u64 }
    }

    /// The same primitive used as a one-shot timer: a clock whose single
    /// tick spans `delay_ms` milliseconds.
    pub fn for_delay_ms(delay_ms: u32) -> (r: Self)
        ensures
            r.interval_ns == delay_ms as u64 * 1_000_000u64,
    {
        Self { interval_ns: delay_ms as u64 * 1_000_000 }
    }

    /// The time left to sleep in the current tick after `work_ns`
    /// nanoseconds have already been spent working.
    pub fn sleep_time(&self, work_ns: u64) -> (r: u64)
        ensures
            r == spec_sleep(self.interval_ns as int, work_ns as int),
    {
        self.interval_ns.saturating_sub(work_ns)
    }
}

/// As long as no single tick's work exceeds the interval, a run of ticks
/// spans exactly `interval` per tick, however the work varies: the average
/// inter-tick distance is exactly `1 / fps`, with no accumulated drift.
pub proof fn lemma_constant_average_interval(interval: int, works: Seq<int>)
    requires
        forall|i: int| 0 <= i < works.len() ==> 0 <= #[trigger] works[i] <= interval,
    ensures
        total_tick_time(interval, works) == works.len() * interval,
    decreases works.len(),
{
    if works.len() == 0 {
    } else {
        let rest = works.drop_first();
        assert(forall|i: int| 0 <= i < rest.len() ==> 0 <= #[trigger] rest[i] <= interval);
        lemma_constant_average_interval(interval, rest);
        assert(works[0] + spec_sleep(interval, works[0]) == interval);
        assert(works.len() * interval == interval + rest.len() * interval) by (nonlinear_arith)
            requires
                works.len() == rest.len() + 1,
        ;
    }
}

} // verus!
