//! Notifications the core emits for audio and analytics; fire and forget.
use vstd::prelude::*;
use crate::bullets::EventBulletSpawn;
use crate::geometry::Pos;

verus! {

/// An enemy was killed at `origin`.
#[derive(Clone, Copy, Debug, PartialEq, Eq, Structural)]
pub struct AiDeathEvent {
    pub origin: Pos,
}

/// The player took a hit.
#[derive(Clone, Copy, Debug, PartialEq, Eq, Structural)]
pub struct PlayerDamagedEvent;

/// The player collected a health pickup.
#[derive(Clone, Copy, Debug, PartialEq, Eq, Structural)]
pub struct PlayerPickupHealthEvent;

/// The player collected a weapon pickup.
#[derive(Clone, Copy, Debug, PartialEq, Eq, Structural)]
pub struct PlayerPickupWeaponEvent;

#[derive(Clone, Copy, Debug, PartialEq, Eq, Structural)]
pub enum Notification {
    BulletSpawned(EventBulletSpawn),
    AiDeath(AiDeathEvent),
    PlayerDamaged(PlayerDamagedEvent),
    PlayerPickupHealth(PlayerPickupHealthEvent),
    PlayerPickupWeapon(PlayerPickupWeaponEvent),
}

} // verus!
