//! Repeating timers on whole microseconds: the movement timer and the food
//! timer.

use vstd::prelude::*;
use vstd::arithmetic::div_mod::{lemma_mod_add_multiples_vanish, lemma_small_mod};

verus! {

/// A repeating timer. `finished` tells whether the latest call of `tick` has
/// carried the elapsed time to the period or beyond; the time beyond it is
/// kept, reduced to less than one period.
#[derive(Clone, Copy, Debug, PartialEq, Eq, Structural)]
pub struct Timer {
    pub period_us: u64,
    pub elapsed_us: u64,
    pub finished: bool,
}

/// The timer that paces the snake.
#[derive(Clone, Copy, Debug, PartialEq, Eq, Structural)]
pub struct SnekMoveTimer(pub Timer);

/// The timer that paces the food.
#[derive(Clone, Copy, Debug, PartialEq, Eq, Structural)]
pub struct FoodSpawnTimer(pub Timer);

impl Timer {
    /// A usable timer: the period is positive and the elapsed time is below it.
    pub open spec fn wf(self) -> bool {
        0 < self.period_us && self.elapsed_us < self.period_us
    }

    /// A timer of the given period with nothing elapsed.
    pub open spec fn fresh(period_us: u64) -> Timer {
        Timer { period_us, elapsed_us: 0, finished: false }
    }

    /// The timer after `delta_us` more microseconds. However many periods have
    /// run down within them, the timer finishes once.
    pub open spec fn spec_tick(self, delta_us: u64) -> Timer {
        Timer {
            period_us: self.period_us,
            elapsed_us: ((self.elapsed_us + delta_us) % (self.period_us as int)) as u64,
            finished: self.elapsed_us + delta_us >= self.period_us,
        }
    }

    /// A fresh timer with a period of `millis` milliseconds.
    pub fn from_millis(millis: u32) -> (t: Timer)
        requires
            millis > 0,
        ensures
            t == Timer::fresh((millis * 1000) as u64),
            t.wf(),
    {
        let period_us: u64 = millis as u64 * 1000;
        Timer { period_us, elapsed_us: 0, finished: false }
    }

    /// Lets `delta_us` microseconds pass.
    pub fn tick(&mut self, delta_us: u64)
        requires
            old(self).wf(),
        ensures
            *final(self) == old(self).spec_tick(delta_us),
            final(self).wf(),
    {
        let left: u64 = self.period_us - self.elapsed_us;
        if delta_us >= left {
            let over: u64 = delta_us - left;
            proof {
                lemma_mod_add_multiples_vanish(over as int, self.period_us as int);
                assert(self.elapsed_us + delta_us == self.period_us + over);
            }
            self.elapsed_us = over % self.period_us;
            self.finished = true;
        } else {
            proof {
                lemma_small_mod((self.elapsed_us + delta_us) as nat, self.period_us as nat);
            }
            self.elapsed_us = self.elapsed_us + delta_us;
            self.finished = false;
        }
    }
}

impl SnekMoveTimer {
    /// A fresh movement timer with a period of `millis` milliseconds.
    pub fn from_millis(millis: u32) -> (t: SnekMoveTimer)
        requires
            millis > 0,
        ensures
            t.0 == Timer::fresh((millis * 1000) as u64),
            t.0.wf(),
    {
        SnekMoveTimer(Timer::from_millis(millis))
    }
}

impl Default for FoodSpawnTimer {
    /// A fresh food timer with a period of one second.
    fn default() -> (t: FoodSpawnTimer)
        ensures
            t.0 == Timer::fresh(1_000_000),
            t.0.wf(),
    {
        FoodSpawnTimer(Timer::from_millis(1000))
    }
}

/// A fresh timer that is given exactly its period finishes, and stands at zero
/// again; so it does when given exactly two periods, and by the one flag that
/// is once; given less than its period it does not finish.
pub proof fn timer_finishes_once_per_tick(period_us: u64, delta_us: u64)
    requires
        0 < period_us,
    ensures
        delta_us == period_us ==> Timer::fresh(period_us).spec_tick(delta_us) == (Timer {
            period_us,
            elapsed_us: 0,
            finished: true,
        }),
        delta_us == 2 * period_us ==> Timer::fresh(period_us).spec_tick(delta_us) == (Timer {
            period_us,
            elapsed_us: 0,
            finished: true,
        }),
        delta_us < period_us ==> Timer::fresh(period_us).spec_tick(delta_us) == (Timer {
            period_us,
            elapsed_us: delta_us,
            finished: false,
        }),
{
    let m = period_us as int;
    if delta_us == period_us {
        lemma_mod_add_multiples_vanish(0, m);
        lemma_small_mod(0, period_us as nat);
    }
    if delta_us == 2 * period_us {
        lemma_mod_add_multiples_vanish(m, m);
        lemma_mod_add_multiples_vanish(0, m);
        lemma_small_mod(0, period_us as nat);
    }
    if delta_us < period_us {
        lemma_small_mod(delta_us as nat, period_us as nat);
    }
}

/// A well-formed timer finishes on a tick exactly when the time given reaches
/// what was left of its period, and stays well-formed.
pub proof fn tick_finishes_when_period_is_reached(timer: Timer, delta_us: u64)
    requires
        timer.wf(),
    ensures
        timer.spec_tick(delta_us).finished == (delta_us >= timer.period_us - timer.elapsed_us),
        timer.spec_tick(delta_us).wf(),
        timer.spec_tick(delta_us).period_us == timer.period_us,
{
    vstd::arithmetic::div_mod::lemma_mod_bound(
        timer.elapsed_us + delta_us,
        timer.period_us as int,
    );
}

} // verus!
