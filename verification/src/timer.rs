//! The repeating timer that paces the spawner.

use vstd::prelude::*;
use vstd::arithmetic::div_mod::lemma_mod_pos_bound;
use bevy::time::{Timer, TimerMode};
use bevy::utils::Duration;

verus! {

/// Runs one `Timer::tick` of `bevy` on a repeating timer of `period`
/// milliseconds that has `elapsed` milliseconds on it, and returns what
/// `Timer::just_finished` and `Timer::elapsed` say afterwards.
///
/// Claimed of that tick: the timer has just finished exactly when the time on
/// it reaches the period; if it has, the time left on it is the remainder by
/// the period, and nothing for a period of zero; if it has not, the time has
/// accumulated. This is claimed only of a timer that has not reached its period
/// before the tick, where the count of periods in one tick cannot be lost.
#[verifier::external_body]
fn tick_repeating(period: u32, elapsed: u32, dt: u32) -> (after: (bool, u32))
    requires
        elapsed < period || (period == 0 && elapsed == 0),
    ensures
        after.0 == (elapsed + dt >= period),
        after.1 == if elapsed + dt < period {
            elapsed + dt
        } else if period == 0 {
            0
        } else {
            (elapsed + dt) % (period as int)
        },
{
    let mut timer = Timer::new(Duration::from_millis(period as u64), TimerMode::Repeating);
    timer.set_elapsed(Duration::from_millis(elapsed as u64));
    timer.tick(Duration::from_millis(dt as u64));
    (timer.just_finished(), timer.elapsed().as_millis() as u32)
}

/// A repeating interval timer, counted in ticks.
///
/// Time handed to [`SpawnTimer::tick`] accumulates. Once the accumulated time
/// reaches the period the timer fires and starts its next period, into which
/// it carries what went beyond the period. A period of zero fires on every
/// tick. The timekeeping is that of the repeating `Timer` of `bevy`; what is
/// kept between ticks is the period and the time on the timer.
#[derive(Clone, Copy, Debug, PartialEq, Eq, Structural)]
pub struct SpawnTimer {
    period: u32,
    elapsed: u32,
}

impl SpawnTimer {
    /// The configured interval.
    pub closed spec fn period(self) -> int {
        self.period as int
    }

    /// The time accumulated in the running period.
    pub closed spec fn elapsed(self) -> int {
        self.elapsed as int
    }

    /// The accumulated time has not reached the period yet.
    pub closed spec fn wf(self) -> bool {
        if self.period == 0 {
            self.elapsed == 0
        } else {
            self.elapsed < self.period
        }
    }

    /// Whether `dt` more ticks make the timer fire.
    pub open spec fn fires(self, dt: int) -> bool {
        self.elapsed() + dt >= self.period()
    }

    /// The time accumulated after `dt` more ticks.
    pub open spec fn elapsed_after(self, dt: int) -> int {
        if !self.fires(dt) {
            self.elapsed() + dt
        } else if self.period() == 0 {
            0
        } else {
            (self.elapsed() + dt) % self.period()
        }
    }

    /// A timer of the given period with no time accumulated.
    pub fn new(period: u32) -> (timer: SpawnTimer)
        ensures
            timer.wf(),
            timer.period() == period,
            timer.elapsed() == 0,
    {
        SpawnTimer { period, elapsed: 0 }
    }

    /// The configured interval.
    pub fn period_ticks(&self) -> (p: u32)
        ensures
            p == self.period(),
    {
        self.period
    }

    /// The time accumulated in the running period.
    pub fn elapsed_ticks(&self) -> (e: u32)
        ensures
            e == self.elapsed(),
    {
        self.elapsed
    }

    /// Accumulates `dt` ticks and says whether the timer fired.
    pub fn tick(&mut self, dt: u32) -> (fired: bool)
        requires
            old(self).wf(),
        ensures
            final(self).wf(),
            final(self).period() == old(self).period(),
            fired == old(self).fires(dt as int),
            final(self).elapsed() == old(self).elapsed_after(dt as int),
    {
        let (fired, elapsed) = tick_repeating(self.period, self.elapsed, dt);
        proof {
            if self.period > 0 {
                lemma_mod_pos_bound(self.elapsed + dt, self.period as int);
            }
        }
        self.elapsed = elapsed;
        fired
    }
}

} // verus!
