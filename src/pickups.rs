//! Pickups dropped by killed combatants, and what collecting one does.
use vstd::prelude::*;
use crate::events::{Notification, PlayerPickupHealthEvent, PlayerPickupWeaponEvent};
use crate::geometry::{Pos, near};
use crate::stats::{Health, Tier, Weapon, min_int};
use crate::world::{Combatant, World, WorldView};

verus! {

/// Health restored by one health pickup, in thousandths of a hit point.
pub const HEAL_AMOUNT: u32 = 250;

/// Bullets added by one weapon pickup.
pub const WEAPON_AMOUNT: u16 = 1;

#[derive(Clone, Copy, Debug, PartialEq, Eq, Structural)]
pub enum PickupKind {
    /// Restores this many thousandths of a hit point.
    Health(u32),
    /// Adds this many bullets to the fan.
    Weapon(u16),
}

#[derive(Clone, Copy, Debug, PartialEq, Eq, Structural)]
pub struct Pickup {
    pub kind: PickupKind,
    pub position: Pos,
}

impl PickupKind {
    pub open spec fn wf(self) -> bool {
        match self {
            PickupKind::Health(a) => a > 0,
            PickupKind::Weapon(a) => a > 0,
        }
    }

    /// Health after collecting this pickup.
    pub open spec fn healed(self, h: Health) -> Health {
        match self {
            PickupKind::Health(a) => Health {
                current: min_int(h.current + a, h.max as int) as u32,
                max: h.max,
            },
            PickupKind::Weapon(_) => h,
        }
    }

    /// Weapon after collecting this pickup.
    pub open spec fn upgraded(self, w: Weapon) -> Weapon {
        match self {
            PickupKind::Health(_) => w,
            PickupKind::Weapon(a) => Weapon {
                bullets: min_int(w.bullets + a, w.max as int) as u16,
                max: w.max,
                spread: w.spread,
            },
        }
    }

    /// Applies this pickup to a combatant's health and weapon.
    pub fn apply_to(&self, health: &mut Health, weapon: &mut Weapon)
        ensures
            *final(health) == self.healed(*old(health)),
            *final(weapon) == self.upgraded(*old(weapon)),
    {
        match *self {
            PickupKind::Health(a) => health.heal(a),
            PickupKind::Weapon(a) => weapon.upgrade(a),
        }
    }
}

/// The notification for the player collecting a pickup of this kind.
pub open spec fn pickup_event(kind: PickupKind) -> Notification {
    match kind {
        PickupKind::Health(_) => Notification::PlayerPickupHealth(PlayerPickupHealthEvent),
        PickupKind::Weapon(_) => Notification::PlayerPickupWeapon(PlayerPickupWeaponEvent),
    }
}

/// A combatant after meeting the pickups `ps` in order: each one near it applies.
pub open spec fn collect_all(c: Combatant, ps: Seq<Pickup>) -> Combatant
    decreases ps.len(),
{
    if ps.len() == 0 {
        c
    } else {
        let c0 = collect_all(c, ps.drop_last());
        let p = ps.last();
        if near(p.position, c.position) {
            Combatant { health: p.kind.healed(c0.health), weapon: p.kind.upgraded(c0.weapon), ..c0 }
        } else {
            c0
        }
    }
}

/// The notifications for `c` meeting the pickups `ps`: one per pickup
/// collected, and only when `c` is the player.
pub open spec fn collect_events(c: Combatant, ps: Seq<Pickup>) -> Seq<Notification>
    decreases ps.len(),
{
    if ps.len() == 0 {
        Seq::empty()
    } else {
        let p = ps.last();
        collect_events(c, ps.drop_last()) + if near(p.position, c.position) && c.tier
            == Tier::Player {
            seq![pickup_event(p.kind)]
        } else {
            Seq::empty()
        }
    }
}

pub open spec fn pickup_events(cs: Seq<Combatant>, ps: Seq<Pickup>) -> Seq<Notification>
    decreases cs.len(),
{
    if cs.len() == 0 {
        Seq::empty()
    } else {
        pickup_events(cs.drop_last(), ps) + collect_events(cs.last(), ps)
    }
}

/// True when some combatant of `cs` is near the pickup.
pub open spec fn collected(p: Pickup, cs: Seq<Combatant>) -> bool {
    exists|k: int| 0 <= k < cs.len() && #[trigger] near(p.position, cs[k].position)
}

/// The pickups that no combatant is near, in their order.
pub open spec fn uncollected(ps: Seq<Pickup>, cs: Seq<Combatant>) -> Seq<Pickup>
    decreases ps.len(),
{
    if ps.len() == 0 {
        Seq::empty()
    } else {
        uncollected(ps.drop_last(), cs) + if collected(ps.last(), cs) {
            Seq::empty()
        } else {
            seq![ps.last()]
        }
    }
}

/// The world after the pickup pass.
pub open spec fn after_pickups(w: WorldView) -> WorldView {
    WorldView {
        combatants: Seq::new(w.combatants.len(), |i: int| collect_all(w.combatants[i], w.pickups)),
        pickups: uncollected(w.pickups, w.combatants),
        events: w.events + pickup_events(w.combatants, w.pickups),
        ..w
    }
}

impl World {
    /// Applies every pickup to every combatant near it, then removes the
    /// pickups that were collected; the player's pickups are announced.
    pub fn collisions_player_pickups(&mut self)
        ensures
            final(self)@ == after_pickups(old(self)@),
    {
        let ghost w = self@;
        let ghost cs = w.combatants;
        let ghost ps = w.pickups;
        let mut taken: Vec<bool> = Vec::new();
        let mut j: usize = 0;
        while j < self.pickups.len()
            invariant
                self@ == w,
                self.pickups@ == ps,
                j <= ps.len(),
                taken@.len() == j,
                forall|q: int| 0 <= q < j ==> !taken@[q],
            decreases ps.len() - j,
        {
            taken.push(false);
            j = j + 1;
        }
        let mut i: usize = 0;
        while i < self.combatants.len()
            invariant
                self@.pickups == ps,
                self@.bullets == w.bullets,
                self@.next_id == w.next_id,
                self@.combatants.len() == cs.len(),
                i <= cs.len(),
                taken@.len() == ps.len(),
                forall|k: int| 0 <= k < i ==> self@.combatants[k] == collect_all(cs[k], ps),
                forall|k: int| i <= k < cs.len() ==> self@.combatants[k] == cs[k],
                self@.events == w.events + pickup_events(cs.take(i as int), ps),
                forall|q: int|
                    0 <= q < ps.len() ==> taken@[q] == collected(ps[q], cs.take(i as int)),
            decreases cs.len() - i,
        {
            let mut c = self.combatants[i];
            let ghost e0 = self@.events;
            let mut j: usize = 0;
            while j < self.pickups.len()
                invariant
                    self@.pickups == ps,
                    self@.bullets == w.bullets,
                    self@.next_id == w.next_id,
                    self@.combatants.len() == cs.len(),
                    i < cs.len(),
                    j <= ps.len(),
                    taken@.len() == ps.len(),
                    c == collect_all(cs[i as int], ps.take(j as int)),
                    c.position == cs[i as int].position,
                    c.tier == cs[i as int].tier,
                    self@.events == e0 + collect_events(cs[i as int], ps.take(j as int)),
                    forall|k: int| 0 <= k < i ==> self@.combatants[k] == collect_all(cs[k], ps),
                    forall|k: int| i <= k < cs.len() ==> self@.combatants[k] == cs[k],
                    forall|q: int|
                        0 <= q < ps.len() ==> taken@[q] == (collected(ps[q], cs.take(i as int))
                            || (q < j && near(ps[q].position, cs[i as int].position))),
                decreases ps.len() - j,
            {
                let p = self.pickups[j];
                let ghost e1 = self@.events;
                if p.position.is_near(&c.position) {
                    let mut health = c.health;
                    let mut weapon = c.weapon;
                    p.kind.apply_to(&mut health, &mut weapon);
                    c = Combatant { health, weapon, ..c };
                    taken.set(j, true);
                    if c.tier.is_player() {
                        let event = match p.kind {
                            PickupKind::Health(_) => Notification::PlayerPickupHealth(
                                PlayerPickupHealthEvent,
                            ),
                            PickupKind::Weapon(_) => Notification::PlayerPickupWeapon(
                                PlayerPickupWeaponEvent,
                            ),
                        };
                        self.events.push(event);
                    }
                }
                assert(ps.take(j + 1).drop_last() =~= ps.take(j as int));
                assert(self@.events =~= e0 + collect_events(cs[i as int], ps.take(j + 1)));
                j = j + 1;
            }
            assert(ps.take(j as int) =~= ps);
            self.combatants.set(i, c);
            assert(cs.take(i + 1).drop_last() =~= cs.take(i as int));
            assert(self@.events =~= w.events + pickup_events(cs.take(i + 1), ps));
            assert forall|q: int| 0 <= q < ps.len() implies taken@[q] == collected(
                ps[q],
                cs.take(i + 1),
            ) by {
                let t = cs.take(i + 1);
                if collected(ps[q], cs.take(i as int)) {
                    let k = choose|k: int|
                        0 <= k < i && #[trigger] near(ps[q].position, cs.take(i as int)[k].position);
                    assert(near(ps[q].position, t[k].position));
                }
                if near(ps[q].position, cs[i as int].position) {
                    assert(near(ps[q].position, t[i as int].position));
                }
                if collected(ps[q], t) {
                    let k = choose|k: int| 0 <= k < i + 1 && #[trigger] near(ps[q].position, t[k].position);
                    if k < i {
                        assert(near(ps[q].position, cs.take(i as int)[k].position));
                    }
                }
            }
            i = i + 1;
        }
        assert(cs.take(i as int) =~= cs);
        let mut kept: Vec<Pickup> = Vec::new();
        let mut j: usize = 0;
        while j < self.pickups.len()
            invariant
                self@.pickups == ps,
                taken@.len() == ps.len(),
                j <= ps.len(),
                forall|q: int| 0 <= q < ps.len() ==> taken@[q] == collected(ps[q], cs),
                kept@ == uncollected(ps.take(j as int), cs),
            decreases ps.len() - j,
        {
            if !taken[j] {
                kept.push(self.pickups[j]);
            }
            assert(ps.take(j + 1).drop_last() =~= ps.take(j as int));
            j = j + 1;
        }
        assert(ps.take(j as int) =~= ps);
        self.pickups = kept;
        assert(self@.combatants =~= after_pickups(w).combatants);
    }
}

/// Collecting a pickup never lowers health or bullets, and never raises
/// health above its maximum or bullets above theirs.
pub proof fn lemma_pickup_monotone_and_clamped(kind: PickupKind, h: Health, w: Weapon)
    requires
        h.wf(),
        w.wf(),
    ensures
        kind.healed(h).wf(),
        kind.healed(h).max == h.max,
        kind.healed(h).current >= h.current,
        kind.upgraded(w).wf(),
        kind.upgraded(w).max == w.max,
        kind.upgraded(w).bullets >= w.bullets,
{
}

} // verus!
