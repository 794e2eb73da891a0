//! Resolution phase: damage intents become health loss, deaths and drops,
//! with each combatant killed at most once per pass.
use vstd::prelude::*;
use crate::chance::roll_percent;
use crate::events::{AiDeathEvent, Notification, PlayerDamagedEvent};
use crate::geometry::{Pos, shifted};
use crate::pickups::{Pickup, PickupKind, HEAL_AMOUNT, WEAPON_AMOUNT};
use crate::stats::{Health, Tier};
use crate::world::{Combatant, EventTryApplyDamages, World, WorldView, HIT_DAMAGE};

verus! {

/// A roll above this drops health pickups; at or below it, weapon pickups.
pub const HEALTH_DROP_ABOVE: u32 = 60;

/// The state of one resolution pass: the world, and the ids killed so far.
pub ghost struct DamagePass {
    pub world: WorldView,
    pub dead: Seq<u64>,
}

/// The index of the first combatant with this id, or -1.
pub open spec fn index_of(cs: Seq<Combatant>, id: u64) -> int {
    if exists|i: int| 0 <= i < cs.len() && is_first_with(cs, id, i) {
        choose|i: int| 0 <= i < cs.len() && is_first_with(cs, id, i)
    } else {
        -1
    }
}

pub open spec fn is_first_with(cs: Seq<Combatant>, id: u64, i: int) -> bool {
    &&& cs[i].id == id
    &&& forall|j: int| 0 <= j < i ==> (#[trigger] cs[j]).id != id
}

pub open spec fn drop_kind(roll: u32) -> PickupKind {
    if roll > HEALTH_DROP_ABOVE {
        PickupKind::Health(HEAL_AMOUNT)
    } else {
        PickupKind::Weapon(WEAPON_AMOUNT)
    }
}

/// What a death at `pos` drops: one pickup (three for an elite), each two
/// units further along the diagonal than the one before.
pub open spec fn drops(pos: Pos, tier: Tier, roll: u32) -> Seq<Pickup> {
    Seq::new(
        tier.drop_count_spec(),
        |k: int| Pickup { kind: drop_kind(roll), position: shifted(pos, 2 * k, 2 * k) },
    )
}

/// One intent, with the roll used should it kill.
pub open spec fn step(p: DamagePass, ev: EventTryApplyDamages, roll: u32) -> DamagePass {
    let w = p.world;
    let i = index_of(w.combatants, ev.0);
    if p.dead.contains(ev.0) || i < 0 {
        p
    } else {
        let c = w.combatants[i];
        let is_player = c.tier == Tier::Player;
        let events = if is_player {
            w.events.push(Notification::PlayerDamaged(PlayerDamagedEvent))
        } else {
            w.events
        };
        let left = if c.health.current > HIT_DAMAGE { c.health.current - HIT_DAMAGE } else { 0 };
        if left > 0 {
            let hurt = Combatant { health: Health { current: left as u32, max: c.health.max }, ..c };
            DamagePass {
                world: WorldView { combatants: w.combatants.update(i, hurt), events, ..w },
                dead: p.dead,
            }
        } else {
            DamagePass {
                world: WorldView {
                    combatants: w.combatants.remove(i),
                    events: if is_player {
                        events
                    } else {
                        events.push(Notification::AiDeath(AiDeathEvent { origin: c.position }))
                    },
                    pickups: w.pickups + drops(c.position, c.tier, roll),
                    ..w
                },
                dead: p.dead.push(ev.0),
            }
        }
    }
}

/// The intents applied in order, intent `k` with roll `k`.
pub open spec fn resolve(
    p: DamagePass,
    evs: Seq<EventTryApplyDamages>,
    rolls: Seq<u32>,
) -> DamagePass
    decreases evs.len(),
{
    if evs.len() == 0 || rolls.len() == 0 {
        p
    } else {
        step(resolve(p, evs.drop_last(), rolls.drop_last()), evs.last(), rolls.last())
    }
}

/// `w2` is a world that resolving `evs` can make of `w`, for some rolls.
pub open spec fn damage_allows(w: WorldView, evs: Seq<EventTryApplyDamages>, w2: WorldView) -> bool {
    exists|rolls: Seq<u32>|
        {
            &&& rolls.len() == evs.len()
            &&& forall|k: int| 0 <= k < rolls.len() ==> 1 <= #[trigger] rolls[k] <= 100
            &&& w2 == #[trigger] resolve(DamagePass { world: w, dead: Seq::empty() }, evs, rolls).world
        }
}

pub open spec fn no_duplicates(s: Seq<u64>) -> bool {
    forall|a: int, b: int| 0 <= a < b < s.len() ==> s[a] != s[b]
}

fn contains_id(v: &Vec<u64>, id: u64) -> (r: bool)
    ensures
        r == v@.contains(id),
{
    let mut i: usize = 0;
    while i < v.len()
        invariant
            i <= v.len(),
            forall|j: int| 0 <= j < i ==> v@[j] != id,
        decreases v.len() - i,
    {
        if v[i] == id {
            assert(v@[i as int] == id);
            return true;
        }
        i = i + 1;
    }
    false
}

impl World {
    /// The index of the first combatant with this id.
    pub fn find(&self, id: u64) -> (r: Option<usize>)
        ensures
            r is None ==> index_of(self@.combatants, id) == -1,
            r matches Some(i) ==> i == index_of(self@.combatants, id) && i
                < self@.combatants.len(),
    {
        let ghost cs = self@.combatants;
        let mut i: usize = 0;
        while i < self.combatants.len()
            invariant
                cs == self@.combatants,
                i <= cs.len(),
                forall|j: int| 0 <= j < i ==> (#[trigger] cs[j]).id != id,
            decreases cs.len() - i,
        {
            if self.combatants[i].id == id {
                assert(is_first_with(cs, id, i as int));
                let ghost k = index_of(cs, id);
                assert(is_first_with(cs, id, k));
                assert(k == i) by {
                    if k < i {
                        assert(cs[k].id != id);
                    } else if k > i {
                        assert(cs[i as int].id != id);
                    }
                }
                return Some(i);
            }
            i = i + 1;
        }
        assert(!exists|k: int| 0 <= k < cs.len() && is_first_with(cs, id, k)) by {
            if exists|k: int| 0 <= k < cs.len() && is_first_with(cs, id, k) {
                let k = choose|k: int| 0 <= k < cs.len() && is_first_with(cs, id, k);
                assert(cs[k].id != id);
            }
        }
        None
    }

    /// Applies one damage intent; `dead` holds the ids killed earlier in this
    /// pass, and an intent against one of them is skipped. The carried amount
    /// is not used: every hit deals `HIT_DAMAGE`.
    pub fn apply_damage(
        &mut self,
        ev: EventTryApplyDamages,
        roll: u32,
        dead: &mut Vec<u64>,
    )
        ensures
            (DamagePass { world: final(self)@, dead: final(dead)@ }) == step(
                DamagePass { world: old(self)@, dead: old(dead)@ },
                ev,
                roll,
            ),
    {
        if contains_id(dead, ev.0) {
            return;
        }
        let i = match self.find(ev.0) {
            Some(i) => i,
            None => {
                return;
            },
        };
        let ghost expected = step(DamagePass { world: old(self)@, dead: old(dead)@ }, ev, roll);
        let c = self.combatants[i];
        let is_player = c.tier.is_player();
        if is_player {
            self.events.push(Notification::PlayerDamaged(PlayerDamagedEvent));
        }
        let mut health = c.health;
        health.hurt(HIT_DAMAGE);
        if health.current > 0 {
            self.combatants.set(i, Combatant { health, ..c });
            assert(self@.combatants =~= expected.world.combatants);
            assert(self@.events =~= expected.world.events);
            assert(dead@ =~= expected.dead);
        } else {
            if !is_player {
                self.events.push(Notification::AiDeath(AiDeathEvent { origin: c.position }));
            }
            self.combatants.remove(i);
            dead.push(ev.0);
            let kind = if roll > HEALTH_DROP_ABOVE {
                PickupKind::Health(HEAL_AMOUNT)
            } else {
                PickupKind::Weapon(WEAPON_AMOUNT)
            };
            let n = c.tier.drop_count();
            let ghost start = self@.pickups;
            let ghost before = self@;
            let mut k: u16 = 0;
            while k < n
                invariant
                    self@.combatants == before.combatants,
                    self@.events == before.events,
                    self@.bullets == before.bullets,
                    self@.next_id == before.next_id,
                    k <= n,
                    n == c.tier.drop_count_spec(),
                    kind == drop_kind(roll),
                    self@.pickups == start + drops(c.position, c.tier, roll).take(k as int),
                decreases n - k,
            {
                let d: i64 = 2 * k as i64;
                self.pickups.push(Pickup { kind, position: c.position.shift(d, d) });
                k = k + 1;
                assert(self@.pickups =~= start + drops(c.position, c.tier, roll).take(k as int));
            }
            assert(drops(c.position, c.tier, roll).take(k as int) =~= drops(
                c.position,
                c.tier,
                roll,
            ));
            assert(self@.combatants =~= expected.world.combatants);
            assert(self@.events =~= expected.world.events);
            assert(self@.pickups =~= expected.world.pickups);
            assert(dead@ =~= expected.dead);
        }
    }

    /// Applies the intents in order, intent `k` with roll `k`.
    pub fn resolve_damages(&mut self, intents: &Vec<EventTryApplyDamages>, rolls: &Vec<u32>)
        requires
            rolls@.len() == intents@.len(),
        ensures
            final(self)@ == resolve(
                DamagePass { world: old(self)@, dead: Seq::empty() },
                intents@,
                rolls@,
            ).world,
    {
        let ghost start = DamagePass { world: self@, dead: Seq::empty() };
        let mut dead: Vec<u64> = Vec::new();
        let mut i: usize = 0;
        while i < intents.len()
            invariant
                rolls@.len() == intents@.len(),
                i <= intents@.len(),
                (DamagePass { world: self@, dead: dead@ }) == resolve(
                    start,
                    intents@.take(i as int),
                    rolls@.take(i as int),
                ),
            decreases intents@.len() - i,
        {
            self.apply_damage(intents[i], rolls[i], &mut dead);
            assert(intents@.take(i + 1).drop_last() =~= intents@.take(i as int));
            assert(rolls@.take(i + 1).drop_last() =~= rolls@.take(i as int));
            i = i + 1;
        }
        assert(intents@.take(i as int) =~= intents@);
        assert(rolls@.take(i as int) =~= rolls@);
    }

    /// The resolution phase: one percentage roll is drawn for each intent
    /// and the intents are applied in order.
    pub fn try_apply_damages(&mut self, intents: &Vec<EventTryApplyDamages>)
        ensures
            damage_allows(old(self)@, intents@, final(self)@),
    {
        let mut rolls: Vec<u32> = Vec::new();
        let mut i: usize = 0;
        while i < intents.len()
            invariant
                i <= intents@.len(),
                rolls@.len() == i,
                forall|k: int| 0 <= k < rolls@.len() ==> 1 <= #[trigger] rolls@[k] <= 100,
            decreases intents@.len() - i,
        {
            rolls.push(roll_percent());
            i = i + 1;
        }
        self.resolve_damages(intents, &rolls);
        assert(self@ == resolve(
            DamagePass { world: old(self)@, dead: Seq::empty() },
            intents@,
            rolls@,
        ).world);
    }
}

/// Within one pass no combatant id is killed twice, and drops are spawned
/// only along with a kill: at most three pickups for each id added to `dead`.
pub proof fn lemma_kill_at_most_once(
    p: DamagePass,
    evs: Seq<EventTryApplyDamages>,
    rolls: Seq<u32>,
)
    requires
        no_duplicates(p.dead),
    ensures
        no_duplicates(resolve(p, evs, rolls).dead),
        resolve(p, evs, rolls).dead.len() >= p.dead.len(),
        resolve(p, evs, rolls).dead.take(p.dead.len() as int) == p.dead,
        resolve(p, evs, rolls).world.pickups.len() <= p.world.pickups.len() + 3 * (resolve(
            p,
            evs,
            rolls,
        ).dead.len() - p.dead.len()),
    decreases evs.len(),
{
    if evs.len() == 0 || rolls.len() == 0 {
        assert(p.dead.take(p.dead.len() as int) =~= p.dead);
    } else {
        let q = resolve(p, evs.drop_last(), rolls.drop_last());
        lemma_kill_at_most_once(p, evs.drop_last(), rolls.drop_last());
        let r = step(q, evs.last(), rolls.last());
        if r.dead != q.dead {
            let id = evs.last().0;
            assert(!q.dead.contains(id));
            assert(r.dead == q.dead.push(id));
            assert forall|a: int, b: int| 0 <= a < b < r.dead.len() implies r.dead[a]
                != r.dead[b] by {
                if b == q.dead.len() {
                    assert(r.dead[a] == q.dead[a]);
                    assert(q.dead.contains(q.dead[a]));
                }
            }
            assert(r.dead.take(p.dead.len() as int) =~= q.dead.take(p.dead.len() as int));
        }
    }
}

/// The combatant that one intent kills, if it kills one.
pub open spec fn killed_by(p: DamagePass, ev: EventTryApplyDamages) -> Option<Combatant> {
    let i = index_of(p.world.combatants, ev.0);
    if p.dead.contains(ev.0) || i < 0 {
        None
    } else {
        let c = p.world.combatants[i];
        if c.health.current > HIT_DAMAGE {
            None
        } else {
            Some(c)
        }
    }
}

/// The combatants killed in a pass, in the order they die.
pub open spec fn pass_kills(
    p: DamagePass,
    evs: Seq<EventTryApplyDamages>,
    rolls: Seq<u32>,
) -> Seq<Combatant>
    decreases evs.len(),
{
    if evs.len() == 0 || rolls.len() == 0 {
        Seq::empty()
    } else {
        let q = resolve(p, evs.drop_last(), rolls.drop_last());
        pass_kills(p, evs.drop_last(), rolls.drop_last()) + match killed_by(q, evs.last()) {
            Some(c) => seq![c],
            None => Seq::empty(),
        }
    }
}

/// The number of pickups that the deaths of `cs` drop.
pub open spec fn total_drops(cs: Seq<Combatant>) -> nat
    decreases cs.len(),
{
    if cs.len() == 0 {
        0
    } else {
        total_drops(cs.drop_last()) + cs.last().tier.drop_count_spec()
    }
}

/// Each death in a pass adds its id to `dead` once, and the pass drops
/// exactly one pickup per normal or player death and three per elite death.
pub proof fn lemma_pass_drops(p: DamagePass, evs: Seq<EventTryApplyDamages>, rolls: Seq<u32>)
    ensures
        resolve(p, evs, rolls).dead.len() == p.dead.len() + pass_kills(p, evs, rolls).len(),
        resolve(p, evs, rolls).dead.take(p.dead.len() as int) == p.dead,
        forall|k: int|
            0 <= k < pass_kills(p, evs, rolls).len() ==> resolve(p, evs, rolls).dead[p.dead.len()
                + k] == (#[trigger] pass_kills(p, evs, rolls)[k]).id,
        resolve(p, evs, rolls).world.pickups.len() == p.world.pickups.len() + total_drops(
            pass_kills(p, evs, rolls),
        ),
    decreases evs.len(),
{
    if evs.len() == 0 || rolls.len() == 0 {
        assert(p.dead.take(p.dead.len() as int) =~= p.dead);
    } else {
        let ev0 = evs.drop_last();
        let r0 = rolls.drop_last();
        lemma_pass_drops(p, ev0, r0);
        let q = resolve(p, ev0, r0);
        let ks0 = pass_kills(p, ev0, r0);
        let ks = pass_kills(p, evs, rolls);
        let r = step(q, evs.last(), rolls.last());
        let i = index_of(q.world.combatants, evs.last().0);
        match killed_by(q, evs.last()) {
            Some(c) => {
                let cs = q.world.combatants;
                let id = evs.last().0;
                assert(exists|j: int| 0 <= j < cs.len() && is_first_with(cs, id, j));
                assert(is_first_with(cs, id, i));
                assert(c.id == id);
                assert(ks == ks0.push(c));
                assert(ks.drop_last() =~= ks0);
                assert(r.dead == q.dead.push(id));
                assert(r.dead.take(p.dead.len() as int) =~= q.dead.take(p.dead.len() as int));
                assert forall|k: int| 0 <= k < ks.len() implies r.dead[p.dead.len() + k]
                    == (#[trigger] ks[k]).id by {
                    if k < ks0.len() {
                        assert(ks[k] == ks0[k]);
                    }
                }
            },
            None => {
                assert(ks =~= ks0);
            },
        }
    }
}

} // verus!
