//! One simulation tick, its stages run in a fixed order, each finishing
//! before the next: respawn check, player fire and enemy retargeting, then
//! (after the movement collaborator has moved everything) enemy spawning,
//! firing, difficulty decay, damage resolution, pickups and projectile
//! collisions.
use vstd::prelude::*;
use crate::ai::{fire_allows, move_allows, spawn_allows};
use crate::damage::damage_allows;
use crate::geometry::Pos;
use crate::player::players_fired;
use crate::schedule::{DECAY_PERIOD_MS, GameDef, Timer, decayed, tick_fires, ticked, update_spawn_interval};
use crate::pickups::after_pickups;
use crate::world::{EventTryApplyDamages, World, WorldView, all_hits, misses, respawned};

verus! {

/// Enemies are retargeted every this many milliseconds.
pub const RETARGET_PERIOD_MS: u64 = 2360;

/// Fire selection runs every this many milliseconds.
pub const FIRE_PERIOD_MS: u64 = 1000;

/// The whole simulation state of one run.
pub struct Game {
    pub world: World,
    pub settings: GameDef,
    pub spawn_timer: Timer,
    pub decay_timer: Timer,
    pub retarget_timer: Timer,
    pub fire_timer: Timer,
    /// Damage intents detected at the end of the last tick, resolved in this one.
    pub pending: Vec<EventTryApplyDamages>,
    /// Milliseconds since the run started.
    pub elapsed: u64,
}

/// What the player asks for in a tick.
#[derive(Clone, Copy, Debug, PartialEq, Eq, Structural)]
pub struct PlayerInput {
    pub fire: bool,
    /// The world point aimed at.
    pub aim: Pos,
}

/// What the first half of a tick reports to the surrounding game.
#[derive(Clone, Copy, Debug, PartialEq, Eq, Structural)]
pub struct TickReport {
    /// The player was missing and has been respawned: go back to the menu.
    pub back_to_menu: bool,
    /// The player fired at least once.
    pub player_fired: bool,
}

pub open spec fn advanced(elapsed: u64, delta: u64) -> u64 {
    if elapsed + delta > u64::MAX { u64::MAX } else { (elapsed + delta) as u64 }
}

/// The world after the respawn check and the player's fire input, before
/// retargeting.
pub open spec fn begun(w: WorldView, input: PlayerInput, now: u64) -> WorldView {
    let r = respawned(w);
    if input.fire { players_fired(r, r.combatants.len(), input.aim, now) } else { r }
}

/// Retargeting when its timer went off, nothing otherwise.
pub open spec fn move_step(fires: bool, w: WorldView, w2: WorldView) -> bool {
    if fires { move_allows(w, w2) } else { w2 == w }
}

/// Fire selection when its timer went off, nothing otherwise.
pub open spec fn fire_step(fires: bool, w: WorldView, now: u64, w2: WorldView) -> bool {
    if fires { fire_allows(w, now, w2) } else { w2 == w }
}

/// The world after the pickup pass and projectile detection.
pub open spec fn collided(w: WorldView) -> WorldView {
    let a = after_pickups(w);
    WorldView { bullets: misses(a.bullets, a.combatants), ..a }
}

/// The decay timer's tick on the settings.
pub open spec fn settings_after(g: GameDef, t: Timer, delta: u64) -> GameDef {
    if tick_fires(t, delta) {
        GameDef {
            spawn_interval: decayed(
                g.spawn_interval as int,
                g.spawn_interval_multiplier_per_second as int,
            ) as u64,
            ..g
        }
    } else {
        g
    }
}

impl Game {
    /// A fresh run: an empty arena (the first tick spawns the player), the
    /// default difficulty, and all timers at zero.
    pub fn new() -> (r: Game)
        ensures
            r.world@.combatants.len() == 0,
            r.world@.bullets.len() == 0,
            r.world@.pickups.len() == 0,
            r.settings.spawn_interval == 5000,
            r.settings.initial_spawn_interval == 5000,
            r.settings.spawn_interval_multiplier_per_second == 900,
            r.spawn_timer == (Timer { duration: 0, elapsed: 0 }),
            r.decay_timer == (Timer { duration: DECAY_PERIOD_MS, elapsed: 0 }),
            r.retarget_timer == (Timer { duration: RETARGET_PERIOD_MS, elapsed: 0 }),
            r.fire_timer == (Timer { duration: FIRE_PERIOD_MS, elapsed: 0 }),
            r.pending@.len() == 0,
            r.elapsed == 0,
    {
        Game {
            world: World::new(),
            settings: GameDef::default(),
            spawn_timer: Timer::new(0),
            decay_timer: Timer::new(DECAY_PERIOD_MS),
            retarget_timer: Timer::new(RETARGET_PERIOD_MS),
            fire_timer: Timer::new(FIRE_PERIOD_MS),
            pending: Vec::new(),
            elapsed: 0,
        }
    }

    /// The first half of a tick, before movement: the clock advances by
    /// `delta`, the respawn check runs, then the player's fire input, then
    /// enemy retargeting when its timer goes off.
    pub fn begin_tick(&mut self, delta: u64, input: PlayerInput) -> (r: TickReport)
        ensures
            final(self).elapsed == advanced(old(self).elapsed, delta),
            final(self).retarget_timer == ticked(old(self).retarget_timer, delta),
            move_step(
                tick_fires(old(self).retarget_timer, delta),
                begun(old(self).world@, input, final(self).elapsed),
                final(self).world@,
            ),
            r.back_to_menu == !crate::world::has_player(old(self).world@.combatants),
            r.player_fired <==> begun(old(self).world@, input, final(self).elapsed).events.len()
                > respawned(old(self).world@).events.len(),
            final(self).settings == old(self).settings,
            final(self).spawn_timer == old(self).spawn_timer,
            final(self).decay_timer == old(self).decay_timer,
            final(self).fire_timer == old(self).fire_timer,
            final(self).pending@ == old(self).pending@,
    {
        self.elapsed = if self.elapsed <= u64::MAX - delta { self.elapsed + delta } else { u64::MAX };
        let back_to_menu = self.world.player_respawn();
        let player_fired = if input.fire {
            self.world.handle_clicks_to_fire(input.aim, self.elapsed)
        } else {
            false
        };
        let ghost fired_world = self.world@;
        assert(fired_world == begun(old(self).world@, input, self.elapsed));
        if self.retarget_timer.tick(delta) {
            self.world.ai_move();
        }
        assert(move_step(tick_fires(old(self).retarget_timer, delta), fired_world, self.world@));
        TickReport { back_to_menu, player_fired }
    }

    /// The second half of a tick, after movement: enemy spawning, fire selection, difficulty decay, resolution of the
    /// damage detected last tick, pickups, and detection of this tick's hits.
    pub fn end_tick(&mut self, delta: u64)
        requires
            old(self).settings.wf(),
        ensures
            final(self).settings.wf(),
            final(self).elapsed == old(self).elapsed,
            final(self).decay_timer == ticked(old(self).decay_timer, delta),
            final(self).settings == settings_after(old(self).settings, old(self).decay_timer, delta),
            final(self).retarget_timer == old(self).retarget_timer,
            final(self).fire_timer == ticked(old(self).fire_timer, delta),
            exists|w1: WorldView, t1: Timer, w3: WorldView, w4: WorldView|
                #![trigger spawn_allows(old(self).world@, old(self).spawn_timer, delta, old(self).settings.spawn_interval, w1, t1), fire_step(tick_fires(old(self).fire_timer, delta), w1, old(self).elapsed, w3), damage_allows(w3, old(self).pending@, w4)]
                {
                    &&& spawn_allows(
                        old(self).world@,
                        old(self).spawn_timer,
                        delta,
                        old(self).settings.spawn_interval,
                        w1,
                        t1,
                    )
                    &&& final(self).spawn_timer == t1
                    &&& fire_step(tick_fires(old(self).fire_timer, delta), w1, old(self).elapsed, w3)
                    &&& damage_allows(w3, old(self).pending@, w4)
                    &&& final(self).world@ == collided(w4)
                    &&& final(self).pending@ == all_hits(
                        after_pickups(w4).bullets,
                        after_pickups(w4).combatants,
                    )
                },
    {
        let now = self.elapsed;
        let ghost w0 = self.world@;
        self.world.spawn_ais(&self.settings, &mut self.spawn_timer, delta);
        let ghost w1 = self.world@;
        let ghost t1 = self.spawn_timer;
        if self.fire_timer.tick(delta) {
            self.world.ai_fire(now);
        }
        let ghost w3 = self.world@;
        update_spawn_interval(&mut self.settings, &mut self.decay_timer, delta);
        self.world.try_apply_damages(&self.pending);
        let ghost w4 = self.world@;
        self.world.collisions_player_pickups();
        self.pending = self.world.collisions_bullet_health();
        proof {
            assert(spawn_allows(
                w0,
                old(self).spawn_timer,
                delta,
                old(self).settings.spawn_interval,
                w1,
                t1,
            ));
            assert(fire_step(tick_fires(old(self).fire_timer, delta), w1, now, w3));
            assert(damage_allows(w3, old(self).pending@, w4));
        }
    }
}

} // verus!
