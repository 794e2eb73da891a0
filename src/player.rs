//! Firing: one combatant's shot into the world, and the player's fire input.
use vstd::prelude::*;
use crate::bullets::{EventBulletSpawn, Projectile, SpawnError, spawn_bullet, spawn_outcome};
use crate::events::Notification;
use crate::geometry::{Pos, Vec2i, towards};
use crate::stats::{Cooldown, Tier};
use crate::world::{Combatant, World, WorldView};

verus! {

/// What a shot does to the world: on success the fan is added, the shooter's
/// cooldown restarts at `now`, and the shot is announced; on failure nothing.
pub open spec fn fired(w: WorldView, i: int, direction: Vec2i, now: u64) -> WorldView {
    let c = w.combatants[i];
    match spawn_outcome(
        c.id,
        c.position,
        direction,
        c.team,
        c.cooldown,
        now,
        c.weapon.bullets,
        c.weapon.spread,
    ) {
        Ok(v) => WorldView {
            combatants: w.combatants.update(
                i,
                Combatant {
                    cooldown: Cooldown { start_time: now, duration: c.cooldown.duration },
                    ..c
                },
            ),
            bullets: w.bullets + v,
            events: w.events.push(
                Notification::BulletSpawned(EventBulletSpawn { origin: c.position }),
            ),
            ..w
        },
        Err(_) => w,
    }
}

pub open spec fn shot_result(w: WorldView, i: int, direction: Vec2i, now: u64) -> Result<
    Seq<Projectile>,
    SpawnError,
> {
    let c = w.combatants[i];
    spawn_outcome(
        c.id,
        c.position,
        direction,
        c.team,
        c.cooldown,
        now,
        c.weapon.bullets,
        c.weapon.spread,
    )
}

/// Every player combatant heads for `target`, or stops when it is `None`.
pub open spec fn player_targets_set(w: WorldView, target: Option<Pos>) -> WorldView {
    WorldView {
        combatants: Seq::new(
            w.combatants.len(),
            |i: int|
                if w.combatants[i].tier == Tier::Player {
                    Combatant { target, ..w.combatants[i] }
                } else {
                    w.combatants[i]
                },
        ),
        ..w
    }
}

/// Every player combatant among the first `k` fires at `aim`, in order.
pub open spec fn players_fired(w: WorldView, k: nat, aim: Pos, now: u64) -> WorldView
    decreases k,
{
    if k == 0 {
        w
    } else {
        let p = players_fired(w, (k - 1) as nat, aim, now);
        let c = p.combatants[k - 1];
        if c.tier == Tier::Player {
            fired(p, k - 1, towards(c.position, aim), now)
        } else {
            p
        }
    }
}

impl World {
    /// Combatant `i` fires along `direction` at time `now`.
    pub fn fire(&mut self, i: usize, direction: Vec2i, now: u64) -> (r: Result<(), SpawnError>)
        requires
            i < old(self)@.combatants.len(),
        ensures
            final(self)@ == fired(old(self)@, i as int, direction, now),
            r is Ok <==> shot_result(old(self)@, i as int, direction, now) is Ok,
            r matches Err(e) ==> shot_result(old(self)@, i as int, direction, now) == Err::<
                Seq<Projectile>,
                SpawnError,
            >(e),
    {
        let c = self.combatants[i];
        match spawn_bullet(
            c.id,
            c.position,
            direction,
            c.team,
            &c.cooldown,
            now,
            c.weapon.bullets,
            c.weapon.spread,
        ) {
            Ok(mut v) => {
                self.bullets.append(&mut v);
                self.combatants.set(i, Combatant { cooldown: c.cooldown.restarted(now), ..c });
                self.events.push(
                    Notification::BulletSpawned(EventBulletSpawn { origin: c.position }),
                );
                Ok(())
            },
            Err(e) => Err(e),
        }
    }

    /// The player's move input: while the button is held every player
    /// combatant heads for the world point under the cursor (`Some`), and
    /// stops once it is released (`None`).
    pub fn handle_mouse_to_move(&mut self, target: Option<Pos>)
        ensures
            final(self)@ == player_targets_set(old(self)@, target),
    {
        let ghost w = self@;
        let n = self.combatants.len();
        let mut i: usize = 0;
        while i < n
            invariant
                n == w.combatants.len(),
                i <= n,
                self@.bullets == w.bullets,
                self@.pickups == w.pickups,
                self@.events == w.events,
                self@.next_id == w.next_id,
                self@.combatants.len() == n,
                forall|k: int|
                    0 <= k < i ==> self@.combatants[k] == player_targets_set(w, target).combatants[k],
                forall|k: int| i <= k < n ==> self@.combatants[k] == w.combatants[k],
            decreases n - i,
        {
            let c = self.combatants[i];
            if c.tier.is_player() {
                self.combatants.set(i, Combatant { target, ..c });
            }
            i = i + 1;
        }
        assert(self@.combatants =~= player_targets_set(w, target).combatants);
    }

    /// The player's fire input: every player combatant shoots at the world
    /// point `aim`. True when at least one shot went off.
    pub fn handle_clicks_to_fire(&mut self, aim: Pos, now: u64) -> (r: bool)
        ensures
            final(self)@ == players_fired(old(self)@, old(self)@.combatants.len(), aim, now),
            r <==> final(self)@.events.len() > old(self)@.events.len(),
    {
        let ghost w = self@;
        let n = self.combatants.len();
        let mut any = false;
        let mut i: usize = 0;
        while i < n
            invariant
                n == w.combatants.len(),
                self@.combatants.len() == n,
                i <= n,
                self@ == players_fired(w, i as nat, aim, now),
                self@.events.len() >= w.events.len(),
                any <==> self@.events.len() > w.events.len(),
            decreases n - i,
        {
            if self.combatants[i].tier.is_player() {
                let direction = self.combatants[i].position.towards(&aim);
                if self.fire(i, direction, now).is_ok() {
                    any = true;
                }
            }
            i = i + 1;
        }
        any
    }
}

/// A shot taken before the shooter's cooldown has run out changes nothing:
/// no projectile, no notification, and the cooldown stays as it was.
pub proof fn lemma_unready_shot_changes_nothing(w: WorldView, i: int, direction: Vec2i, now: u64)
    requires
        0 <= i < w.combatants.len(),
        now <= w.combatants[i].cooldown.start_time + w.combatants[i].cooldown.duration,
    ensures
        fired(w, i, direction, now) == w,
        shot_result(w, i, direction, now) is Err,
{
}

/// A shot with a zero aim changes nothing, whatever the cooldown.
pub proof fn lemma_zero_aim_shot_changes_nothing(w: WorldView, i: int, now: u64)
    requires
        0 <= i < w.combatants.len(),
    ensures
        fired(w, i, Vec2i { x: 0, y: 0 }, now) == w,
        shot_result(w, i, Vec2i { x: 0, y: 0 }, now) == Err::<Seq<Projectile>, SpawnError>(
            SpawnError::DegenerateDirection,
        ),
{
}

} // verus!
