//! Interval timers and the process-wide difficulty state.
use vstd::prelude::*;

verus! {

/// A timer that goes off each time its accumulated time reaches `duration`;
/// a tick that crosses the interval several times goes off once.
#[derive(Clone, Copy, Debug, PartialEq, Eq, Structural)]
pub struct Timer {
    pub duration: u64,
    pub elapsed: u64,
}

pub open spec fn tick_fires(t: Timer, delta: u64) -> bool {
    t.elapsed + delta >= t.duration
}

pub open spec fn ticked(t: Timer, delta: u64) -> Timer {
    Timer {
        duration: t.duration,
        elapsed: if t.duration == 0 { 0 } else { ((t.elapsed + delta) % (t.duration as int)) as u64 },
    }
}

impl Timer {
    /// A timer of `duration` milliseconds with nothing accumulated.
    pub fn new(duration: u64) -> (r: Timer)
        ensures
            r.duration == duration,
            r.elapsed == 0,
    {
        Timer { duration, elapsed: 0 }
    }

    /// Adds `delta` milliseconds; true when the timer went off in this tick.
    pub fn tick(&mut self, delta: u64) -> (r: bool)
        ensures
            r == tick_fires(*old(self), delta),
            *final(self) == ticked(*old(self), delta),
    {
        let total = self.elapsed as u128 + delta as u128;
        let fired = total >= self.duration as u128;
        if self.duration == 0 {
            self.elapsed = 0;
        } else {
            let rest = total % self.duration as u128;
            assert(rest < self.duration);
            self.elapsed = rest as u64;
        }
        fired
    }

    /// Sets a new duration and starts over from zero.
    pub fn restart(&mut self, duration: u64)
        ensures
            final(self).duration == duration,
            final(self).elapsed == 0,
    {
        self.duration = duration;
        self.elapsed = 0;
    }
}

/// Every this many milliseconds the spawn interval shrinks.
pub const DECAY_PERIOD_MS: u64 = 4000;

/// Difficulty: the current spawn interval in milliseconds, and the factor,
/// in thousandths, that it is multiplied by at each decay. The interval
/// never drops below `MIN_SPAWN_INTERVAL`.
#[derive(Clone, Copy, Debug, PartialEq, Eq, Structural)]
pub struct GameDef {
    pub spawn_interval: u64,
    pub initial_spawn_interval: u64,
    pub spawn_interval_multiplier_per_second: u64,
}

/// The shortest spawn interval, in milliseconds.
pub const MIN_SPAWN_INTERVAL: u64 = 1;

/// One decay step: the interval times the multiplier, rounded down, but no
/// shorter than `MIN_SPAWN_INTERVAL`.
pub open spec fn decayed(interval: int, multiplier: int) -> int {
    let scaled = interval * multiplier / 1000;
    if scaled < MIN_SPAWN_INTERVAL { MIN_SPAWN_INTERVAL as int } else { scaled }
}

impl GameDef {
    pub open spec fn wf(&self) -> bool {
        &&& self.spawn_interval_multiplier_per_second < 1000
        &&& self.spawn_interval >= MIN_SPAWN_INTERVAL
    }

    /// Applies one decay step: the interval times the multiplier, rounded
    /// down, held at `MIN_SPAWN_INTERVAL` at least.
    pub fn decay(&mut self)
        requires
            old(self).wf(),
        ensures
            final(self).wf(),
            final(self).spawn_interval == decayed(
                old(self).spawn_interval as int,
                old(self).spawn_interval_multiplier_per_second as int,
            ),
            final(self).initial_spawn_interval == old(self).initial_spawn_interval,
            final(self).spawn_interval_multiplier_per_second
                == old(self).spawn_interval_multiplier_per_second,
            final(self).spawn_interval >= MIN_SPAWN_INTERVAL,
            old(self).spawn_interval > MIN_SPAWN_INTERVAL ==> final(self).spawn_interval < old(
                self,
            ).spawn_interval,
    {
        let interval = self.spawn_interval;
        let m = self.spawn_interval_multiplier_per_second;
        proof {
            assert(interval * m / 1000 <= interval) by (nonlinear_arith)
                requires
                    m < 1000,
            ;
            assert(interval > 0 ==> interval * m / 1000 < interval) by (nonlinear_arith)
                requires
                    m < 1000,
            ;
            assert(interval * m <= u64::MAX * 1000) by (nonlinear_arith)
                requires
                    m < 1000,
            ;
        }
        let scaled = (interval as u128 * m as u128 / 1000) as u64;
        self.spawn_interval = if scaled < MIN_SPAWN_INTERVAL { MIN_SPAWN_INTERVAL } else { scaled };
    }
}

impl Default for GameDef {
    /// Five seconds between spawns at first, shrinking by a tenth at each decay.
    fn default() -> (r: GameDef)
        ensures
            r.spawn_interval == 5000,
            r.initial_spawn_interval == 5000,
            r.spawn_interval_multiplier_per_second == 900,
    {
        GameDef {
            spawn_interval: 5000,
            initial_spawn_interval: 5000,
            spawn_interval_multiplier_per_second: 900,
        }
    }
}

/// The decay timer's tick: the interval shrinks once each time it goes off.
pub fn update_spawn_interval(game_settings: &mut GameDef, timer: &mut Timer, delta: u64) -> (r:
    bool)
    requires
        old(game_settings).wf(),
    ensures
        r == tick_fires(*old(timer), delta),
        *final(timer) == ticked(*old(timer), delta),
        final(game_settings).wf(),
        r ==> final(game_settings).spawn_interval == decayed(
            old(game_settings).spawn_interval as int,
            old(game_settings).spawn_interval_multiplier_per_second as int,
        ),
        !r ==> *final(game_settings) == *old(game_settings),
        r && old(game_settings).spawn_interval > MIN_SPAWN_INTERVAL
            ==> final(game_settings).spawn_interval < old(game_settings).spawn_interval,
        r ==> final(game_settings).spawn_interval_multiplier_per_second == old(
            game_settings,
        ).spawn_interval_multiplier_per_second,
        r ==> final(game_settings).initial_spawn_interval == old(
            game_settings,
        ).initial_spawn_interval,
{
    let fired = timer.tick(delta);
    if fired {
        game_settings.decay();
    }
    fired
}

/// The interval stays positive, and while it is above the shortest one
/// every decay makes it strictly smaller.
pub proof fn lemma_decay_strictly_decreases(interval: int, multiplier: int)
    requires
        MIN_SPAWN_INTERVAL < interval,
        0 <= multiplier < 1000,
    ensures
        0 < MIN_SPAWN_INTERVAL <= decayed(interval, multiplier) < interval,
{
    assert(0 <= interval * multiplier / 1000 < interval) by (nonlinear_arith)
        requires
            0 < interval,
            0 <= multiplier < 1000,
    ;
}

} // verus!
