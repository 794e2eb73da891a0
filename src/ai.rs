//! Enemy behaviour: spawning by tier, retargeting around the player, and
//! choosing which ready enemies fire.
use vstd::prelude::*;
use crate::chance::{random_range, roll_percent, shuffle};
use crate::bullets::Projectile;
use crate::geometry::{COMPASS_POINTS, Pos, compass, compass_spec, shifted, towards};
use crate::player::fired;
use crate::schedule::{GameDef, Timer, tick_fires, ticked};
use crate::stats::{AI_TEAM, Cooldown, Health, TeamIdx, Tier, Weapon};
use crate::world::{Combatant, World, WorldView, has_player, next_id_after};

verus! {

/// A spawn roll at or below this makes an elite.
pub const ELITE_AT_MOST: u32 = 30;

/// Enemies spawn with `-ARENA_HALF_WIDTH <= x < ARENA_HALF_WIDTH`.
pub const ARENA_HALF_WIDTH: i64 = 460;

/// Enemies spawn with `-ARENA_HALF_HEIGHT <= y < ARENA_HALF_HEIGHT`.
pub const ARENA_HALF_HEIGHT: i64 = 260;

/// Retargeting picks a point at four times the circle table's radius: 200.
pub const ORBIT_SCALE: i64 = 4;

/// One more enemy may fire for every this many milliseconds of play.
pub const QUOTA_STEP_MS: u64 = 35000;

/// At most this many enemies fire at once.
pub const MAX_QUOTA: u64 = 25;

/// The enemy a spawn roll makes: above 30 a normal one (one hit point, one
/// bullet, fast), otherwise an elite (three hit points, three bullets, slow).
pub open spec fn enemy(roll: u32, position: Pos, id: u64) -> Combatant {
    let elite = roll <= ELITE_AT_MOST;
    Combatant {
        id,
        position,
        health: if elite { Health { current: 3000, max: 3000 } } else { Health { current: 1000, max: 1000 } },
        weapon: Weapon { bullets: if elite { 3 } else { 1 }, max: 360, spread: 160 },
        cooldown: Cooldown { start_time: 0, duration: 2000 },
        team: TeamIdx(AI_TEAM),
        tier: if elite { Tier::Elite } else { Tier::Normal },
        speed: if elite { 50 } else { 75 },
        target: Some(Pos { x: 200, y: 200 }),
    }
}

pub open spec fn in_arena(p: Pos) -> bool {
    -ARENA_HALF_WIDTH <= p.x < ARENA_HALF_WIDTH && -ARENA_HALF_HEIGHT <= p.y < ARENA_HALF_HEIGHT
}

pub open spec fn with_enemy(w: WorldView, roll: u32, position: Pos) -> WorldView {
    WorldView {
        combatants: w.combatants.push(enemy(roll, position, w.next_id)),
        next_id: next_id_after(w.next_id),
        ..w
    }
}

/// Point `k` of the circle of radius 200 about `p`.
pub open spec fn orbit_point(p: Pos, k: int) -> Pos {
    shifted(p, ORBIT_SCALE * compass_spec(k).0, ORBIT_SCALE * compass_spec(k).1)
}

/// Point `k` of the circle of radius 50 about `p`.
pub open spec fn jitter_point(p: Pos, k: int) -> Pos {
    shifted(p, compass_spec(k).0, compass_spec(k).1)
}

/// Every enemy heads for its picked point on the circle about the player.
pub open spec fn retargeted(w: WorldView, player: Pos, picks: Seq<usize>) -> WorldView {
    WorldView {
        combatants: Seq::new(
            w.combatants.len(),
            |i: int|
                if w.combatants[i].tier.is_ai() {
                    Combatant { target: Some(orbit_point(player, picks[i] as int)), ..w.combatants[i] }
                } else {
                    w.combatants[i]
                },
        ),
        ..w
    }
}

/// The indices of the enemies whose cooldown is ready at `now`, ascending.
pub open spec fn ready_indices(cs: Seq<Combatant>, now: u64) -> Seq<usize>
    decreases cs.len(),
{
    if cs.len() == 0 {
        Seq::empty()
    } else {
        let c = cs.last();
        ready_indices(cs.drop_last(), now) + if c.tier.is_ai() && c.cooldown.ready_at(now) {
            seq![(cs.len() - 1) as usize]
        } else {
            Seq::empty()
        }
    }
}

pub open spec fn fire_quota_spec(elapsed_ms: u64) -> int {
    let steps = elapsed_ms / QUOTA_STEP_MS;
    if steps < 1 {
        1
    } else if steps > MAX_QUOTA {
        MAX_QUOTA as int
    } else {
        steps as int
    }
}

/// The enemies in `order` fire in turn, shot `k` aimed at jitter point
/// `jitters[k]` about the player.
pub open spec fn volley(
    w: WorldView,
    order: Seq<usize>,
    jitters: Seq<usize>,
    player: Pos,
    now: u64,
) -> WorldView
    decreases order.len(),
{
    if order.len() == 0 {
        w
    } else {
        let p = volley(w, order.drop_last(), jitters, player, now);
        let i = order.last() as int;
        let c = p.combatants[i];
        fired(p, i, towards(c.position, jitter_point(player, jitters[order.len() - 1] as int)), now)
    }
}

/// The shuffled ready enemies, cut to the quota, fire at the player `p`.
pub open spec fn fire_outcome(
    w: WorldView,
    p: int,
    shuffled: Seq<usize>,
    jitters: Seq<usize>,
    now: u64,
) -> WorldView {
    let n = if shuffled.len() < fire_quota_spec(now) {
        shuffled.len() as int
    } else {
        fire_quota_spec(now)
    };
    volley(w, shuffled.take(n), jitters, w.combatants[p].position, now)
}

/// `w2` is a world that retargeting can make of `w`.
pub open spec fn move_allows(w: WorldView, w2: WorldView) -> bool {
    if !has_player(w.combatants) {
        w2 == w
    } else {
        exists|p: int, picks: Seq<usize>|
            {
                &&& 0 <= p < w.combatants.len()
                &&& w.combatants[p].tier == Tier::Player
                &&& picks.len() == w.combatants.len()
                &&& forall|k: int| 0 <= k < picks.len() ==> #[trigger] picks[k] < COMPASS_POINTS
                &&& w2 == #[trigger] retargeted(w, w.combatants[p].position, picks)
            }
    }
}

/// `w2` is a world that fire selection at `now` can make of `w`.
pub open spec fn fire_allows(w: WorldView, now: u64, w2: WorldView) -> bool {
    if !has_player(w.combatants) {
        w2 == w
    } else {
        exists|p: int, shuffled: Seq<usize>, jitters: Seq<usize>|
            {
                &&& 0 <= p < w.combatants.len()
                &&& w.combatants[p].tier == Tier::Player
                &&& shuffled.to_multiset() == ready_indices(w.combatants, now).to_multiset()
                &&& forall|k: int| 0 <= k < jitters.len() ==> #[trigger] jitters[k] < COMPASS_POINTS
                &&& w2 == #[trigger] fire_outcome(w, p, shuffled, jitters, now)
            }
    }
}

/// `(w2, t2)` is what the spawn timer's tick can make of `(w, t)`.
pub open spec fn spawn_allows(
    w: WorldView,
    t: Timer,
    delta: u64,
    interval: u64,
    w2: WorldView,
    t2: Timer,
) -> bool {
    if !tick_fires(t, delta) {
        t2 == ticked(t, delta) && w2 == w
    } else {
        &&& t2 == (Timer { duration: interval, elapsed: 0 })
        &&& exists|roll: u32, position: Pos|
            1 <= roll <= 100 && in_arena(position) && w2 == #[trigger] with_enemy(w, roll, position)
    }
}

/// How many enemies may fire at `elapsed_ms`: one per 35 seconds of play,
/// at least one and at most 25.
pub fn fire_quota(elapsed_ms: u64) -> (r: usize)
    ensures
        r == fire_quota_spec(elapsed_ms),
{
    let steps = elapsed_ms / QUOTA_STEP_MS;
    if steps < 1 {
        1
    } else if steps > MAX_QUOTA {
        MAX_QUOTA as usize
    } else {
        steps as usize
    }
}

impl World {
    /// Adds the enemy that `roll` makes at `position`.
    pub fn spawn_enemy(&mut self, roll: u32, position: Pos)
        ensures
            final(self)@ == with_enemy(old(self)@, roll, position),
    {
        let id = self.fresh_id();
        let elite = roll <= ELITE_AT_MOST;
        let c = Combatant {
            id,
            position,
            health: if elite { Health::full(3000) } else { Health::full(1000) },
            weapon: Weapon { bullets: if elite { 3 } else { 1 }, max: 360, spread: 160 },
            cooldown: Cooldown { start_time: 0, duration: 2000 },
            team: TeamIdx(AI_TEAM),
            tier: if elite { Tier::Elite } else { Tier::Normal },
            speed: if elite { 50 } else { 75 },
            target: Some(Pos { x: 200, y: 200 }),
        };
        self.combatants.push(c);
    }

    /// The spawn timer's tick: when it goes off it restarts with the current
    /// spawn interval and one enemy of a random tier appears at a random
    /// place in the arena. True when an enemy was spawned.
    pub fn spawn_ais(&mut self, game_settings: &GameDef, timer: &mut Timer, delta: u64) -> (r:
        bool)
        ensures
            r == tick_fires(*old(timer), delta),
            !r ==> *final(timer) == ticked(*old(timer), delta) && final(self)@ == old(self)@,
            r ==> *final(timer) == (Timer { duration: game_settings.spawn_interval, elapsed: 0 }),
            r ==> exists|roll: u32, position: Pos|
                1 <= roll <= 100 && in_arena(position) && final(self)@ == with_enemy(
                    old(self)@,
                    roll,
                    position,
                ),
    {
        if !timer.tick(delta) {
            return false;
        }
        timer.restart(game_settings.spawn_interval);
        let roll = roll_percent();
        let x = random_range(-ARENA_HALF_WIDTH, ARENA_HALF_WIDTH) as i32;
        let y = random_range(-ARENA_HALF_HEIGHT, ARENA_HALF_HEIGHT) as i32;
        let position = Pos::new(x, y);
        self.spawn_enemy(roll, position);
        true
    }

    /// Every enemy heads for point `picks[i]` of the circle of radius 200
    /// about `player`; the player's own target is left alone.
    pub fn retarget(&mut self, player: Pos, picks: &Vec<usize>)
        requires
            picks@.len() == old(self)@.combatants.len(),
            forall|k: int| 0 <= k < picks@.len() ==> picks@[k] < COMPASS_POINTS,
        ensures
            final(self)@ == retargeted(old(self)@, player, picks@),
    {
        let ghost w = self@;
        let n = self.combatants.len();
        let mut i: usize = 0;
        while i < n
            invariant
                n == w.combatants.len(),
                picks@.len() == n,
                forall|k: int| 0 <= k < picks@.len() ==> picks@[k] < COMPASS_POINTS,
                i <= n,
                self@.bullets == w.bullets,
                self@.pickups == w.pickups,
                self@.events == w.events,
                self@.next_id == w.next_id,
                self@.combatants.len() == n,
                forall|k: int| 0 <= k < i ==> self@.combatants[k] == retargeted(w, player, picks@).combatants[k],
                forall|k: int| i <= k < n ==> self@.combatants[k] == w.combatants[k],
            decreases n - i,
        {
            let c = self.combatants[i];
            if !c.tier.is_player() {
                let (dx, dy) = compass(picks[i]);
                let target = player.shift(ORBIT_SCALE * dx, ORBIT_SCALE * dy);
                self.combatants.set(i, Combatant { target: Some(target), ..c });
            }
            i = i + 1;
        }
        assert(self@.combatants =~= retargeted(w, player, picks@).combatants);
    }

    /// Retargeting: with a player present, every enemy heads for a random
    /// point of the circle of radius 200 about it. False, with nothing
    /// changed, when there is no player.
    pub fn ai_move(&mut self) -> (r: bool)
        ensures
            r == has_player(old(self)@.combatants),
            !r ==> final(self)@ == old(self)@,
            r ==> exists|p: int, picks: Seq<usize>|
                {
                    &&& 0 <= p < old(self)@.combatants.len()
                    &&& old(self)@.combatants[p].tier == Tier::Player
                    &&& picks.len() == old(self)@.combatants.len()
                    &&& forall|k: int| 0 <= k < picks.len() ==> #[trigger] picks[k] < COMPASS_POINTS
                    &&& final(self)@ == retargeted(
                        old(self)@,
                        old(self)@.combatants[p].position,
                        picks,
                    )
                },
            move_allows(old(self)@, final(self)@),
    {
        let p = match self.player_index() {
            Some(p) => p,
            None => {
                return false;
            },
        };
        let player = self.combatants[p].position;
        let n = self.combatants.len();
        let mut picks: Vec<usize> = Vec::new();
        let mut i: usize = 0;
        while i < n
            invariant
                i <= n,
                picks@.len() == i,
                forall|k: int| 0 <= k < picks@.len() ==> picks@[k] < COMPASS_POINTS,
            decreases n - i,
        {
            picks.push(random_range(0, COMPASS_POINTS as i64) as usize);
            i = i + 1;
        }
        self.retarget(player, &picks);
        true
    }

    /// The indices of the enemies whose cooldown is ready at `now`, ascending.
    pub fn ready_attackers(&self, now: u64) -> (r: Vec<usize>)
        ensures
            r@ == ready_indices(self@.combatants, now),
    {
        let ghost cs = self@.combatants;
        let mut out: Vec<usize> = Vec::new();
        let mut i: usize = 0;
        while i < self.combatants.len()
            invariant
                cs == self@.combatants,
                i <= cs.len(),
                out@ == ready_indices(cs.take(i as int), now),
            decreases cs.len() - i,
        {
            let c = &self.combatants[i];
            if !c.tier.is_player() && c.cooldown.is_ready(now) {
                out.push(i);
            }
            assert(cs.take(i + 1).drop_last() =~= cs.take(i as int));
            i = i + 1;
        }
        assert(cs.take(i as int) =~= cs);
        out
    }

    /// The enemies in `order` fire in turn, shot `k` aimed at jitter point
    /// `jitters[k]` of the circle of radius 50 about `player`.
    pub fn fire_volley(&mut self, order: &Vec<usize>, jitters: &Vec<usize>, player: Pos, now: u64)
        requires
            forall|k: int| 0 <= k < order@.len() ==> order@[k] < old(self)@.combatants.len(),
            jitters@.len() >= order@.len(),
            forall|k: int| 0 <= k < jitters@.len() ==> jitters@[k] < COMPASS_POINTS,
        ensures
            final(self)@ == volley(old(self)@, order@, jitters@, player, now),
    {
        let ghost w = self@;
        let mut k: usize = 0;
        while k < order.len()
            invariant
                forall|q: int| 0 <= q < order@.len() ==> order@[q] < w.combatants.len(),
                jitters@.len() >= order@.len(),
                forall|q: int| 0 <= q < jitters@.len() ==> jitters@[q] < COMPASS_POINTS,
                k <= order@.len(),
                self@.combatants.len() == w.combatants.len(),
                self@ == volley(w, order@.take(k as int), jitters@, player, now),
            decreases order@.len() - k,
        {
            let i = order[k];
            let (dx, dy) = compass(jitters[k]);
            let aim_point = player.shift(dx, dy);
            let direction = self.combatants[i].position.towards(&aim_point);
            let _ = self.fire(i, direction, now);
            assert(order@.take(k + 1).drop_last() =~= order@.take(k as int));
            k = k + 1;
        }
        assert(order@.take(k as int) =~= order@);
    }

    /// Fire selection: with a player present, the enemies whose cooldown is
    /// ready are shuffled, and the first `fire_quota(now)` of them fire at a
    /// random point of the circle of radius 50 about the player. False, with
    /// nothing changed, when there is no player.
    pub fn ai_fire(&mut self, now: u64) -> (r: bool)
        ensures
            r == has_player(old(self)@.combatants),
            !r ==> final(self)@ == old(self)@,
            r ==> exists|p: int, shuffled: Seq<usize>, jitters: Seq<usize>|
                {
                    &&& 0 <= p < old(self)@.combatants.len()
                    &&& old(self)@.combatants[p].tier == Tier::Player
                    &&& shuffled.to_multiset() == ready_indices(
                        old(self)@.combatants,
                        now,
                    ).to_multiset()
                    &&& forall|k: int| 0 <= k < jitters.len() ==> #[trigger] jitters[k] < COMPASS_POINTS
                    &&& final(self)@ == #[trigger] fire_outcome(old(self)@, p, shuffled, jitters, now)
                },
            fire_allows(old(self)@, now, final(self)@),
    {
        let p = match self.player_index() {
            Some(p) => p,
            None => {
                return false;
            },
        };
        let player = self.combatants[p].position;
        let ready = self.ready_attackers(now);
        let mut shuffled = ready.clone();
        assert(shuffled@ == ready@);
        shuffle(&mut shuffled);
        let quota = fire_quota(now);
        let ghost cs = self@.combatants;
        proof {
            assert(cs.len() == self.combatants.len());
            lemma_ready_indices_are_ready(cs, now);
            ready@.to_multiset_ensures();
            shuffled@.to_multiset_ensures();
        }
        let mut order: Vec<usize> = Vec::new();
        let mut jitters: Vec<usize> = Vec::new();
        let mut k: usize = 0;
        while k < shuffled.len() && k < quota
            invariant
                k <= shuffled@.len(),
                k <= quota,
                quota == fire_quota_spec(now),
                order@ == shuffled@.take(k as int),
                jitters@.len() == k,
                forall|q: int| 0 <= q < jitters@.len() ==> jitters@[q] < COMPASS_POINTS,
            decreases shuffled@.len() - k,
        {
            order.push(shuffled[k]);
            jitters.push(random_range(0, COMPASS_POINTS as i64) as usize);
            k = k + 1;
            assert(order@ =~= shuffled@.take(k as int));
        }
        assert forall|q: int| 0 <= q < order@.len() implies order@[q] < self@.combatants.len() by {
            let x = order@[q];
            assert(shuffled@[q] == x);
            assert(shuffled@.contains(x));
            assert(shuffled@.to_multiset().count(x) > 0);
            assert(ready@.contains(x));
        }
        self.fire_volley(&order, &jitters, player, now);
        assert(order@ =~= shuffled@.take(k as int));
        assert(self@ == fire_outcome(old(self)@, p as int, shuffled@, jitters@, now));
        true
    }
}

/// Every index in the ready list points at an enemy whose cooldown is ready.
pub proof fn lemma_ready_indices_are_ready(cs: Seq<Combatant>, now: u64)
    requires
        cs.len() <= usize::MAX,
    ensures
        forall|x: usize|
            ready_indices(cs, now).contains(x) ==> x < cs.len() && cs[x as int].tier.is_ai()
                && cs[x as int].cooldown.ready_at(now),
    decreases cs.len(),
{
    if cs.len() > 0 {
        lemma_ready_indices_are_ready(cs.drop_last(), now);
        let r0 = ready_indices(cs.drop_last(), now);
        let c = cs.last();
        let tail = if c.tier.is_ai() && c.cooldown.ready_at(now) {
            seq![(cs.len() - 1) as usize]
        } else {
            Seq::<usize>::empty()
        };
        assert forall|x: usize| ready_indices(cs, now).contains(x) implies x < cs.len()
            && cs[x as int].tier.is_ai() && cs[x as int].cooldown.ready_at(now) by {
            let r = ready_indices(cs, now);
            let j = choose|j: int| 0 <= j < r.len() && r[j] == x;
            if j < r0.len() {
                assert(r0[j] == x);
                assert(r0.contains(x));
                assert(cs.drop_last()[x as int] == cs[x as int]);
            } else {
                assert(tail[j - r0.len()] == x);
                assert(tail.len() > 0);
                assert(x as int == cs.len() - 1);
            }
        }
    }
}

/// Every point of the orbit lies exactly 200 units from its centre, when
/// the centre is far enough from the edge of the coordinate range.
pub proof fn lemma_orbit_radius(p: Pos, k: int)
    requires
        0 <= k < COMPASS_POINTS,
        i32::MIN + 200 <= p.x <= i32::MAX - 200,
        i32::MIN + 200 <= p.y <= i32::MAX - 200,
    ensures
        crate::geometry::dist2(orbit_point(p, k), p) == 200 * 200,
{
    crate::geometry::lemma_compass_on_circle(k);
    let (dx, dy) = compass_spec(k);
    assert(-50 <= dx <= 50 && -50 <= dy <= 50);
    assert((4 * dx) * (4 * dx) + (4 * dy) * (4 * dy) == 16 * (dx * dx + dy * dy)) by (nonlinear_arith);
}

/// The projectile belongs to one of the combatants at the indices `order`.
pub open spec fn owned_by_one_of(b: Projectile, cs: Seq<Combatant>, order: Seq<usize>) -> bool {
    exists|k: int| 0 <= k < order.len() && b.owner.entity == cs[#[trigger] order[k] as int].id
}

/// A volley touches only the combatants that fire: every index outside
/// `order` keeps its combatant, no id changes, the earlier projectiles stay
/// in front, and each new projectile belongs to a combatant in `order`.
pub proof fn lemma_volley_frame(
    w: WorldView,
    order: Seq<usize>,
    jitters: Seq<usize>,
    player: Pos,
    now: u64,
)
    requires
        forall|k: int| 0 <= k < order.len() ==> order[k] < w.combatants.len(),
    ensures
        volley(w, order, jitters, player, now).combatants.len() == w.combatants.len(),
        forall|j: int|
            0 <= j < w.combatants.len() && !order.contains(j as usize) ==> volley(
                w,
                order,
                jitters,
                player,
                now,
            ).combatants[j] == w.combatants[j],
        forall|j: int|
            0 <= j < w.combatants.len() ==> volley(w, order, jitters, player, now).combatants[j].id
                == w.combatants[j].id,
        volley(w, order, jitters, player, now).bullets.len() >= w.bullets.len(),
        volley(w, order, jitters, player, now).bullets.take(w.bullets.len() as int) == w.bullets,
        forall|m: int|
            w.bullets.len() <= m < volley(w, order, jitters, player, now).bullets.len()
                ==> owned_by_one_of(
                #[trigger] volley(w, order, jitters, player, now).bullets[m],
                w.combatants,
                order,
            ),
    decreases order.len(),
{
    if order.len() > 0 {
        let o0 = order.drop_last();
        lemma_volley_frame(w, o0, jitters, player, now);
        let q = volley(w, o0, jitters, player, now);
        let v = volley(w, order, jitters, player, now);
        let i = order.last() as int;
        let c = q.combatants[i];
        let direction = towards(c.position, jitter_point(player, jitters[order.len() - 1] as int));
        assert(v == fired(q, i, direction, now));
        assert forall|j: int|
            0 <= j < w.combatants.len() && !order.contains(j as usize) implies v.combatants[j]
            == w.combatants[j] by {
            if o0.contains(j as usize) {
                let k = choose|k: int| 0 <= k < o0.len() && o0[k] == j as usize;
                assert(order[k] == j as usize);
            }
            assert(order[order.len() - 1] == order.last());
            assert(j != i);
        }
        assert(q.bullets.take(w.bullets.len() as int) == w.bullets);
        assert(v.bullets.take(w.bullets.len() as int) =~= w.bullets);
        assert forall|m: int| w.bullets.len() <= m < v.bullets.len() implies owned_by_one_of(
            #[trigger] v.bullets[m],
            w.combatants,
            order,
        ) by {
            if m < q.bullets.len() {
                assert(v.bullets[m] == q.bullets[m]);
                assert(owned_by_one_of(q.bullets[m], w.combatants, o0));
                let k = choose|k: int|
                    0 <= k < o0.len() && q.bullets[m].owner.entity
                        == w.combatants[#[trigger] o0[k] as int].id;
                assert(order[k] == o0[k]);
            } else {
                let k = order.len() - 1;
                assert(order[k] == order.last());
                assert(v.bullets[m].owner.entity == c.id);
            }
        }
    }
}

/// An enemy whose cooldown is not ready at `now` does not fire: it keeps
/// its state, cooldown included, and, ids being distinct, none of the new
/// projectiles is its own.
pub proof fn lemma_unready_enemy_holds_fire(
    w: WorldView,
    p: int,
    shuffled: Seq<usize>,
    jitters: Seq<usize>,
    now: u64,
    i: int,
)
    requires
        w.combatants.len() <= usize::MAX,
        0 <= i < w.combatants.len(),
        !w.combatants[i].cooldown.ready_at(now),
        shuffled.to_multiset() == ready_indices(w.combatants, now).to_multiset(),
        forall|a: int, b: int|
            0 <= a < b < w.combatants.len() ==> w.combatants[a].id != w.combatants[b].id,
    ensures
        fire_outcome(w, p, shuffled, jitters, now).combatants[i] == w.combatants[i],
        fire_outcome(w, p, shuffled, jitters, now).bullets.take(w.bullets.len() as int)
            == w.bullets,
        forall|m: int|
            w.bullets.len() <= m < fire_outcome(w, p, shuffled, jitters, now).bullets.len()
                ==> fire_outcome(w, p, shuffled, jitters, now).bullets[m].owner.entity
                != w.combatants[i].id,
{
    let cs = w.combatants;
    let ready = ready_indices(cs, now);
    lemma_ready_indices_are_ready(cs, now);
    shuffled.to_multiset_ensures();
    ready.to_multiset_ensures();
    let n = if shuffled.len() < fire_quota_spec(now) {
        shuffled.len() as int
    } else {
        fire_quota_spec(now)
    };
    let order = shuffled.take(n);
    assert forall|k: int| 0 <= k < order.len() implies order[k] < cs.len() && order[k] != i by {
        let x = order[k];
        assert(shuffled[k] == x);
        assert(shuffled.contains(x));
        assert(shuffled.to_multiset().count(x) > 0);
        assert(ready.contains(x));
    }
    lemma_volley_frame(w, order, jitters, cs[p].position, now);
    if order.contains(i as usize) {
        let k = choose|k: int| 0 <= k < order.len() && order[k] == i as usize;
        assert(order[k] != i);
    }
    let v = fire_outcome(w, p, shuffled, jitters, now);
    assert forall|m: int| w.bullets.len() <= m < v.bullets.len() implies v.bullets[m].owner.entity
        != cs[i].id by {
        assert(owned_by_one_of(v.bullets[m], cs, order));
        let k = choose|k: int|
            0 <= k < order.len() && v.bullets[m].owner.entity == cs[#[trigger] order[k] as int].id;
        assert(order[k] != i);
    }
}

} // verus!
