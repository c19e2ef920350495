//! Frame timing: runtime since start and a per-tick delta, capped at a
//! configured maximum so a long stall cannot produce a huge step.
//!
//! Clock reads go through trusted wrappers around `std::time::Instant`;
//! nothing is promised of what the clock returns, and the capping logic
//! is verified for every possible reading.

use std::time::Duration;
use std::time::Instant;
use vstd::prelude::*;

verus! {

#[verifier::external_type_specification]
#[verifier::external_body]
pub struct ExInstant(Instant);

/// Relies on std's `Instant::now`: reads the monotonic clock. Nothing is
/// promised of the value.
#[verifier::external_body]
fn instant_now() -> Instant {
    Instant::now()
}

/// Relies on std's `Instant::saturating_duration_since`: the span from
/// `earlier` to `later`, zero if `earlier` is the later one. Never panics.
#[verifier::external_body]
fn span_between(earlier: &Instant, later: &Instant) -> Duration {
    later.saturating_duration_since(*earlier)
}

/// Relies on std's `Duration::as_nanos`, truncated to 64 bits (more than
/// five centuries).
#[verifier::external_body]
fn duration_nanos(d: &Duration) -> u64 {
    d.as_nanos() as u64
}

fn nanos_between(earlier: &Instant, later: &Instant) -> u64 {
    duration_nanos(&span_between(earlier, later))
}

/// Wall-clock state: start and previous-tick instants, the capped delta
/// of the last tick, and the cap itself.
pub struct TimerResource {
    pub max_duration_nanos: u64,
    pub start: Instant,
    pub previous: Instant,
    pub dt_nanos: u64,
}

impl TimerResource {
    /// The delta never exceeds its cap.
    pub open spec fn wf(self) -> bool {
        self.dt_nanos <= self.max_duration_nanos
    }

    /// A timer started now, with the given cap on per-tick deltas.
    pub fn new(max_duration_nanos: u64) -> (t: TimerResource)
        ensures
            t.wf(),
            t.max_duration_nanos == max_duration_nanos,
            t.dt_nanos == 0,
    {
        let now = instant_now();
        TimerResource { max_duration_nanos, start: now, previous: now, dt_nanos: 0 }
    }

    /// Nanoseconds since the timer was created, as the clock reports
    /// them; nothing more is promised of a clock reading.
    pub fn get_runtime(&self) -> u64 {
        let now = instant_now();
        nanos_between(&self.start, &now)
    }

    /// The last tick's delta in nanoseconds, capped.
    pub fn get_dt_nanos(&self) -> (r: u64)
        requires
            self.wf(),
        ensures
            r == self.dt_nanos,
            r <= self.max_duration_nanos,
    {
        self.dt_nanos
    }

    /// The verified capping step: record an elapsed reading, capped at
    /// the configured maximum.
    pub fn apply_tick(&mut self, elapsed_nanos: u64)
        ensures
            final(self).dt_nanos == if elapsed_nanos <= old(self).max_duration_nanos {
                elapsed_nanos
            } else {
                old(self).max_duration_nanos
            },
            final(self).max_duration_nanos == old(self).max_duration_nanos,
            final(self).start == old(self).start,
            final(self).previous == old(self).previous,
            final(self).wf(),
    {
        if elapsed_nanos <= self.max_duration_nanos {
            self.dt_nanos = elapsed_nanos;
        } else {
            self.dt_nanos = self.max_duration_nanos;
        }
    }

    /// Advance the timer by one tick: whatever the clock reports, the
    /// recorded delta stays within the cap.
    pub fn tick(&mut self)
        ensures
            final(self).wf(),
            final(self).max_duration_nanos == old(self).max_duration_nanos,
            final(self).start == old(self).start,
            final(self).dt_nanos <= old(self).max_duration_nanos,
    {
        let current = instant_now();
        let elapsed = nanos_between(&self.previous, &current);
        self.apply_tick(elapsed);
        self.previous = current;
    }
}

/// The per-tick system that advances the timer after all other systems
/// have read the previous delta.
pub struct TickTimer;

impl TickTimer {
    pub fn run(timer: &mut TimerResource)
        ensures
            final(timer).wf(),
            final(timer).max_duration_nanos == old(timer).max_duration_nanos,
            final(timer).dt_nanos <= old(timer).max_duration_nanos,
    {
        timer.tick();
    }
}

} // verus!
