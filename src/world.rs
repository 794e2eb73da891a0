//! The arena: combatants, projectiles, pickups and pending notifications,
//! with the respawn sweep and projectile collision detection.
use vstd::prelude::*;
use crate::bullets::Projectile;
use crate::events::Notification;
use crate::geometry::{Pos, near};
use crate::pickups::Pickup;
use crate::stats::{Cooldown, Health, TeamIdx, Tier, Weapon, HP_UNIT, PLAYER_TEAM};

verus! {

/// Damage dealt by one hit, in thousandths of a hit point.
pub const HIT_DAMAGE: u32 = 250;

/// Anything with health, a weapon and a cooldown.
#[derive(Clone, Copy, Debug, PartialEq, Eq, Structural)]
pub struct Combatant {
    pub id: u64,
    pub position: Pos,
    pub health: Health,
    pub weapon: Weapon,
    pub cooldown: Cooldown,
    pub team: TeamIdx,
    pub tier: Tier,
    /// Movement speed in arena units per second.
    pub speed: u32,
    /// Where the movement collaborator should take this combatant, if anywhere.
    pub target: Option<Pos>,
}

impl Combatant {
    pub open spec fn wf(&self) -> bool {
        self.health.wf() && self.weapon.wf()
    }
}

/// A pending hit on the combatant with this id, carrying its damage.
#[derive(Clone, Copy, Debug, PartialEq, Eq, Structural)]
pub struct EventTryApplyDamages(pub u64, pub u32);

pub struct World {
    pub combatants: Vec<Combatant>,
    pub bullets: Vec<Projectile>,
    pub pickups: Vec<Pickup>,
    pub events: Vec<Notification>,
    pub next_id: u64,
}

pub ghost struct WorldView {
    pub combatants: Seq<Combatant>,
    pub bullets: Seq<Projectile>,
    pub pickups: Seq<Pickup>,
    pub events: Seq<Notification>,
    pub next_id: u64,
}

impl View for World {
    type V = WorldView;

    open spec fn view(&self) -> WorldView {
        WorldView {
            combatants: self.combatants@,
            bullets: self.bullets@,
            pickups: self.pickups@,
            events: self.events@,
            next_id: self.next_id,
        }
    }
}

pub open spec fn has_player(cs: Seq<Combatant>) -> bool {
    exists|i: int| 0 <= i < cs.len() && (#[trigger] cs[i]).tier == Tier::Player
}

pub open spec fn player_count(cs: Seq<Combatant>) -> nat
    decreases cs.len(),
{
    if cs.len() == 0 {
        0
    } else {
        player_count(cs.drop_last()) + if cs.last().tier == Tier::Player { 1nat } else { 0nat }
    }
}

/// Entities removed en masse on respawn: enemies, projectiles and pickups.
pub open spec fn transient_count(w: WorldView) -> nat {
    (w.combatants.len() - player_count(w.combatants)) as nat + w.bullets.len() + w.pickups.len()
}

/// The player as spawned on respawn: at the origin, 1.5 hit points, one
/// bullet (up to 36), half a second of cooldown.
pub open spec fn baseline_player(id: u64) -> Combatant {
    Combatant {
        id,
        position: Pos { x: 0, y: 0 },
        health: Health { current: 1500, max: 1500 },
        weapon: Weapon { bullets: 1, max: 36, spread: 15 },
        cooldown: Cooldown { start_time: 0, duration: 500 },
        team: TeamIdx(PLAYER_TEAM),
        tier: Tier::Player,
        speed: 130,
        target: Some(Pos { x: 0, y: 0 }),
    }
}

pub open spec fn next_id_after(id: u64) -> u64 {
    if id < u64::MAX { (id + 1) as u64 } else { id }
}

/// The world after the respawn check: unchanged while a player exists;
/// otherwise every transient entity is gone and a fresh player stands alone.
pub open spec fn respawned(w: WorldView) -> WorldView {
    if has_player(w.combatants) {
        w
    } else {
        WorldView {
            combatants: seq![baseline_player(w.next_id)],
            bullets: Seq::empty(),
            pickups: Seq::empty(),
            events: w.events,
            next_id: next_id_after(w.next_id),
        }
    }
}

/// The damage a projectile deals to the combatants `cs`: one hit for each
/// combatant other than its owner that it is near.
pub open spec fn hits(b: Projectile, cs: Seq<Combatant>) -> Seq<EventTryApplyDamages>
    decreases cs.len(),
{
    if cs.len() == 0 {
        Seq::empty()
    } else {
        let c = cs.last();
        hits(b, cs.drop_last()) + if b.owner.entity != c.id && near(b.position, c.position) {
            seq![EventTryApplyDamages(c.id, HIT_DAMAGE)]
        } else {
            Seq::empty()
        }
    }
}

pub open spec fn all_hits(bs: Seq<Projectile>, cs: Seq<Combatant>) -> Seq<EventTryApplyDamages>
    decreases bs.len(),
{
    if bs.len() == 0 {
        Seq::empty()
    } else {
        all_hits(bs.drop_last(), cs) + hits(bs.last(), cs)
    }
}

/// The projectiles that hit nothing, in their order.
pub open spec fn misses(bs: Seq<Projectile>, cs: Seq<Combatant>) -> Seq<Projectile>
    decreases bs.len(),
{
    if bs.len() == 0 {
        Seq::empty()
    } else {
        misses(bs.drop_last(), cs) + if hits(bs.last(), cs).len() == 0 {
            seq![bs.last()]
        } else {
            Seq::empty()
        }
    }
}

/// The projectiles still alive `delta` milliseconds on, each with that much
/// less time to live, in their order.
pub open spec fn aged(bs: Seq<Projectile>, delta: u64) -> Seq<Projectile>
    decreases bs.len(),
{
    if bs.len() == 0 {
        Seq::empty()
    } else {
        let b = bs.last();
        aged(bs.drop_last(), delta) + if b.ttl_ms > delta {
            seq![Projectile { ttl_ms: (b.ttl_ms - delta) as u64, ..b }]
        } else {
            Seq::empty()
        }
    }
}

impl World {
    pub fn new() -> (r: World)
        ensures
            r@.combatants.len() == 0,
            r@.bullets.len() == 0,
            r@.pickups.len() == 0,
            r@.events.len() == 0,
            r@.next_id == 0,
    {
        World {
            combatants: Vec::new(),
            bullets: Vec::new(),
            pickups: Vec::new(),
            events: Vec::new(),
            next_id: 0,
        }
    }

    /// Hands out a fresh id.
    pub fn fresh_id(&mut self) -> (r: u64)
        ensures
            r == old(self).next_id,
            final(self)@ == (WorldView { next_id: next_id_after(old(self).next_id), ..old(self)@ }),
    {
        let id = self.next_id;
        if self.next_id < u64::MAX {
            self.next_id = self.next_id + 1;
        }
        id
    }

    /// True when some combatant is the player.
    pub fn has_player(&self) -> (r: bool)
        ensures
            r == has_player(self@.combatants),
    {
        self.player_index().is_some()
    }

    /// The index of the first player combatant, if any.
    pub fn player_index(&self) -> (r: Option<usize>)
        ensures
            r is None <==> !has_player(self@.combatants),
            r matches Some(i) ==> i < self@.combatants.len() && self@.combatants[i as int].tier
                == Tier::Player,
    {
        let mut i: usize = 0;
        while i < self.combatants.len()
            invariant
                i <= self.combatants.len(),
                forall|j: int| 0 <= j < i ==> (#[trigger] self.combatants@[j]).tier != Tier::Player,
            decreases self.combatants.len() - i,
        {
            if self.combatants[i].tier.is_player() {
                return Some(i);
            }
            i = i + 1;
        }
        None
    }

    /// The respawn check, run first in every tick. With no player present it
    /// clears every transient entity, spawns a fresh player at the origin,
    /// and returns true: the surrounding game should go back to its menu.
    pub fn player_respawn(&mut self) -> (r: bool)
        ensures
            r == !has_player(old(self)@.combatants),
            final(self)@ == respawned(old(self)@),
    {
        if self.has_player() {
            return false;
        }
        // With no player present every combatant is an enemy, so all of them go.
        self.combatants.clear();
        self.bullets.clear();
        self.pickups.clear();
        let id = self.fresh_id();
        self.combatants.push(
            Combatant {
                id,
                position: Pos { x: 0, y: 0 },
                health: Health::full(3 * HP_UNIT / 2),
                weapon: Weapon { bullets: 1, max: 36, spread: 15 },
                cooldown: Cooldown { start_time: 0, duration: 500 },
                team: TeamIdx(PLAYER_TEAM),
                tier: Tier::Player,
                speed: 130,
                target: Some(Pos { x: 0, y: 0 }),
            },
        );
        assert(self@.combatants =~= seq![baseline_player(old(self)@.next_id)]);
        assert(self@.bullets =~= Seq::<Projectile>::empty());
        assert(self@.pickups =~= Seq::<Pickup>::empty());
        true
    }

    /// Time passes for the projectiles: those whose time to live runs out
    /// within `delta` milliseconds are destroyed.
    pub fn expire_bullets(&mut self, delta: u64)
        ensures
            final(self)@ == (WorldView { bullets: aged(old(self)@.bullets, delta), ..old(self)@ }),
    {
        let ghost bs = self@.bullets;
        let mut kept: Vec<Projectile> = Vec::new();
        let mut i: usize = 0;
        while i < self.bullets.len()
            invariant
                bs == self@.bullets,
                i <= bs.len(),
                kept@ == aged(bs.take(i as int), delta),
            decreases bs.len() - i,
        {
            let b = self.bullets[i];
            if b.ttl_ms > delta {
                kept.push(Projectile { ttl_ms: b.ttl_ms - delta, ..b });
            }
            assert(bs.take(i + 1).drop_last() =~= bs.take(i as int));
            i = i + 1;
        }
        assert(bs.take(i as int) =~= bs);
        self.bullets = kept;
    }

    /// Detection phase: every projectile near a combatant other than its owner
    /// yields one damage intent per such combatant and is destroyed.
    pub fn collisions_bullet_health(&mut self) -> (r: Vec<EventTryApplyDamages>)
        ensures
            r@ == all_hits(old(self)@.bullets, old(self)@.combatants),
            final(self)@ == (WorldView {
                bullets: misses(old(self)@.bullets, old(self)@.combatants),
                ..old(self)@
            }),
    {
        let ghost cs = self@.combatants;
        let ghost bs = self@.bullets;
        let mut intents: Vec<EventTryApplyDamages> = Vec::new();
        let mut kept: Vec<Projectile> = Vec::new();
        let mut i: usize = 0;
        while i < self.bullets.len()
            invariant
                cs == self@.combatants,
                bs == self@.bullets,
                i <= bs.len(),
                intents@ == all_hits(bs.take(i as int), cs),
                kept@ == misses(bs.take(i as int), cs),
            decreases bs.len() - i,
        {
            let b = self.bullets[i];
            let mut found: Vec<EventTryApplyDamages> = Vec::new();
            let mut j: usize = 0;
            while j < self.combatants.len()
                invariant
                    cs == self@.combatants,
                    b == bs[i as int],
                    j <= cs.len(),
                    found@ == hits(b, cs.take(j as int)),
                decreases cs.len() - j,
            {
                let c = &self.combatants[j];
                if b.owner.entity != c.id && b.position.is_near(&c.position) {
                    found.push(EventTryApplyDamages(c.id, HIT_DAMAGE));
                }
                assert(cs.take(j + 1).drop_last() =~= cs.take(j as int));
                j = j + 1;
            }
            assert(cs.take(j as int) =~= cs);
            assert(bs.take(i + 1).drop_last() =~= bs.take(i as int));
            if found.len() == 0 {
                kept.push(b);
            }
            let ghost before = intents@;
            intents.append(&mut found);
            assert(intents@ =~= before + hits(b, cs));
            i = i + 1;
        }
        assert(bs.take(i as int) =~= bs);
        self.bullets = kept;
        intents
    }
}

/// After the respawn check on a world with no player there is exactly one
/// player and nothing transient.
pub proof fn lemma_respawn_sweep(w: WorldView)
    requires
        !has_player(w.combatants),
    ensures
        player_count(respawned(w).combatants) == 1,
        transient_count(respawned(w)) == 0,
{
    let cs = respawned(w).combatants;
    assert(cs.drop_last() =~= Seq::<Combatant>::empty());
    assert(player_count(cs.drop_last()) == 0);
    assert(cs.last().tier == Tier::Player);
    assert(player_count(cs) == 1);
}

} // verus!
