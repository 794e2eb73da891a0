//! Projectiles and the spawner that fans them out from a shot.
use vstd::prelude::*;
use crate::geometry::{Pos, Vec2i, is_zero};
use crate::stats::{Cooldown, TeamIdx};

verus! {

/// Flight speed of a projectile, in arena units per second.
pub const BULLET_SPEED: u32 = 400;

/// Lifetime of a projectile, in milliseconds.
pub const BULLET_TTL_MS: u64 = 2000;

/// The combatant that fired a projectile; it is never hit by it.
#[derive(Clone, Copy, Debug, PartialEq, Eq, Structural)]
pub struct BulletOwner {
    pub entity: u64,
}

/// A direction of flight: the vector `aim` turned counter-clockwise by
/// `turn / of` of a full turn.
#[derive(Clone, Copy, Debug, PartialEq, Eq, Structural)]
pub struct Heading {
    pub aim: Vec2i,
    pub turn: u16,
    pub of: u16,
}

#[derive(Clone, Copy, Debug, PartialEq, Eq, Structural)]
pub struct Projectile {
    pub position: Pos,
    pub heading: Heading,
    pub owner: BulletOwner,
    pub team: TeamIdx,
    pub speed: u32,
    pub ttl_ms: u64,
}

/// Why a shot was refused.
#[derive(Clone, Copy, Debug, PartialEq, Eq, Structural)]
pub enum SpawnError {
    /// The aim vector is zero.
    DegenerateDirection,
    /// The cooldown has not run out.
    NotReady,
}

/// Notice that a shot was fired from `origin`.
#[derive(Clone, Copy, Debug, PartialEq, Eq, Structural)]
pub struct EventBulletSpawn {
    pub origin: Pos,
}

/// An accepted shot, ready to be turned into projectiles.
#[derive(Clone, Copy, Debug, PartialEq, Eq, Structural)]
pub struct SpawnBulletCommand {
    pub from_entity: u64,
    pub team: TeamIdx,
    pub from_position: Pos,
    pub to_direction: Vec2i,
    pub number_of_bullets: u16,
    pub bullet_spread: u16,
}

/// Projectile `k` of the fan: the aim turned by `k / n` of a full turn.
pub open spec fn fan_bullet(c: SpawnBulletCommand, k: int) -> Projectile {
    Projectile {
        position: c.from_position,
        heading: Heading { aim: c.to_direction, turn: k as u16, of: c.number_of_bullets },
        owner: BulletOwner { entity: c.from_entity },
        team: c.team,
        speed: BULLET_SPEED,
        ttl_ms: BULLET_TTL_MS,
    }
}

/// The whole fan of a shot: `number_of_bullets` projectiles evenly spaced
/// around a full turn, the first along the aim.
pub open spec fn fan(c: SpawnBulletCommand) -> Seq<Projectile> {
    Seq::new(c.number_of_bullets as nat, |k: int| fan_bullet(c, k))
}

pub open spec fn spawn_outcome(
    from_entity: u64,
    from_position: Pos,
    direction: Vec2i,
    team: TeamIdx,
    cooldown: Cooldown,
    now: u64,
    number_of_bullets: u16,
    bullet_spread: u16,
) -> Result<Seq<Projectile>, SpawnError> {
    if is_zero(direction) {
        Err(SpawnError::DegenerateDirection)
    } else if !cooldown.ready_at(now) {
        Err(SpawnError::NotReady)
    } else {
        Ok(
            fan(
                SpawnBulletCommand {
                    from_entity,
                    team,
                    from_position,
                    to_direction: direction,
                    number_of_bullets,
                    bullet_spread,
                },
            ),
        )
    }
}

impl SpawnBulletCommand {
    /// The projectiles of this shot, in fan order.
    pub fn apply(&self) -> (r: Vec<Projectile>)
        ensures
            r@ == fan(*self),
    {
        let mut out: Vec<Projectile> = Vec::new();
        let n = self.number_of_bullets;
        let mut k: u16 = 0;
        while k < n
            invariant
                k <= n,
                n == self.number_of_bullets,
                out@ == fan(*self).take(k as int),
            decreases n - k,
        {
            out.push(
                Projectile {
                    position: self.from_position,
                    heading: Heading { aim: self.to_direction, turn: k, of: n },
                    owner: BulletOwner { entity: self.from_entity },
                    team: self.team,
                    speed: BULLET_SPEED,
                    ttl_ms: BULLET_TTL_MS,
                },
            );
            k = k + 1;
            assert(out@ =~= fan(*self).take(k as int));
        }
        assert(out@ =~= fan(*self));
        out
    }
}

/// Fires a shot if the aim is not zero and the cooldown is ready; the
/// cooldown itself is left to the caller to restart on success.
pub fn spawn_bullet(
    from_entity: u64,
    from_position: Pos,
    direction: Vec2i,
    team: TeamIdx,
    cooldown: &Cooldown,
    now: u64,
    number_of_bullets: u16,
    bullet_spread: u16,
) -> (r: Result<Vec<Projectile>, SpawnError>)
    ensures
        r matches Ok(v) ==> spawn_outcome(
            from_entity,
            from_position,
            direction,
            team,
            *cooldown,
            now,
            number_of_bullets,
            bullet_spread,
        ) == Ok::<Seq<Projectile>, SpawnError>(v@),
        r matches Err(e) ==> spawn_outcome(
            from_entity,
            from_position,
            direction,
            team,
            *cooldown,
            now,
            number_of_bullets,
            bullet_spread,
        ) == Err::<Seq<Projectile>, SpawnError>(e),
{
    if direction.is_zero() {
        return Err(SpawnError::DegenerateDirection);
    }
    if !cooldown.is_ready(now) {
        return Err(SpawnError::NotReady);
    }
    let command = SpawnBulletCommand {
        from_entity,
        team,
        from_position,
        to_direction: direction,
        number_of_bullets,
        bullet_spread,
    };
    Ok(command.apply())
}

/// A shot that the cooldown gate refuses creates nothing: at any `now` up to
/// `start_time + duration` the outcome is an error.
pub proof fn lemma_not_ready_spawns_nothing(
    from_entity: u64,
    from_position: Pos,
    direction: Vec2i,
    team: TeamIdx,
    cooldown: Cooldown,
    now: u64,
    number_of_bullets: u16,
    bullet_spread: u16,
)
    requires
        now <= cooldown.start_time + cooldown.duration,
    ensures
        spawn_outcome(
            from_entity,
            from_position,
            direction,
            team,
            cooldown,
            now,
            number_of_bullets,
            bullet_spread,
        ) is Err,
{
}

/// A zero aim creates nothing, whatever the cooldown.
pub proof fn lemma_zero_aim_spawns_nothing(
    from_entity: u64,
    from_position: Pos,
    team: TeamIdx,
    cooldown: Cooldown,
    now: u64,
    number_of_bullets: u16,
    bullet_spread: u16,
)
    ensures
        spawn_outcome(
            from_entity,
            from_position,
            Vec2i { x: 0, y: 0 },
            team,
            cooldown,
            now,
            number_of_bullets,
            bullet_spread,
        ) == Err::<Seq<Projectile>, SpawnError>(SpawnError::DegenerateDirection),
{
}

/// A ready shot with a non-zero aim creates exactly `n` projectiles, all along
/// the same aim, projectile `k` turned by `k / n` of a full turn; turning the
/// fan by one step of `1 / n` maps it onto itself, so the fan is closed.
pub proof fn lemma_fan_is_closed(
    from_entity: u64,
    from_position: Pos,
    direction: Vec2i,
    team: TeamIdx,
    cooldown: Cooldown,
    now: u64,
    n: u16,
    bullet_spread: u16,
)
    requires
        !is_zero(direction),
        cooldown.ready_at(now),
    ensures
        spawn_outcome(from_entity, from_position, direction, team, cooldown, now, n, bullet_spread)
            matches Ok(v) && v.len() == n && (forall|k: int|
            0 <= k < n ==> {
                &&& (#[trigger] v[k]).heading.aim == direction
                &&& v[k].heading.turn == k
                &&& v[k].heading.of == n
                &&& v[(k + 1) % (n as int)].heading.turn == (v[k].heading.turn + 1) % (n as int)
                &&& v[k].owner.entity == from_entity
            }),
{
    let c = SpawnBulletCommand {
        from_entity,
        team,
        from_position,
        to_direction: direction,
        number_of_bullets: n,
        bullet_spread,
    };
    let v = fan(c);
    assert forall|k: int| 0 <= k < n implies {
        &&& (#[trigger] v[k]).heading.aim == direction
        &&& v[k].heading.turn == k
        &&& v[k].heading.of == n
        &&& v[(k + 1) % (n as int)].heading.turn == (v[k].heading.turn + 1) % (n as int)
        &&& v[k].owner.entity == from_entity
    } by {
        let j = (k + 1) % (n as int);
        assert(0 <= j < n);
        assert(v[j].heading.turn == j);
    }
}

} // verus!
