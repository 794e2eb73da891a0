//! Per-combatant state: health, weapon, cooldown, team and tier.
use vstd::prelude::*;

verus! {

/// Thousandths of a hit point in one hit point.
pub const HP_UNIT: u32 = 1000;

/// Health in thousandths of a hit point.
#[derive(Clone, Copy, Debug, PartialEq, Eq, Structural)]
pub struct Health {
    pub current: u32,
    pub max: u32,
}

impl Health {
    pub open spec fn wf(&self) -> bool {
        self.current <= self.max
    }

    /// Full health of `max` thousandths.
    pub fn full(max: u32) -> (r: Health)
        ensures
            r.current == max,
            r.max == max,
            r.wf(),
    {
        Health { current: max, max }
    }

    /// `current` as a share of `max`, in thousandths; zero when `max` is zero.
    pub fn ratio_permille(&self) -> (r: u32)
        requires
            self.wf(),
        ensures
            self.max == 0 ==> r == 0,
            self.max > 0 ==> r == self.current * 1000 / (self.max as int),
            r <= 1000,
    {
        if self.max == 0 {
            0
        } else {
            proof {
                assert(self.current * 1000 / (self.max as int) <= 1000) by (nonlinear_arith)
                    requires
                        self.current <= self.max,
                        self.max > 0,
                ;
                assert(self.current * 1000 <= u32::MAX * 1000) by (nonlinear_arith);
            }
            (self.current as u64 * 1000 / self.max as u64) as u32
        }
    }

    /// Raises `current` by `amount`, no higher than `max`.
    pub fn heal(&mut self, amount: u32)
        ensures
            final(self).max == old(self).max,
            final(self).current == min_int(old(self).current + amount, old(self).max as int),
    {
        let raised = self.current as u64 + amount as u64;
        self.current = if raised < self.max as u64 { raised as u32 } else { self.max };
    }

    /// Lowers `current` by `amount`, no lower than zero.
    pub fn hurt(&mut self, amount: u32)
        ensures
            final(self).max == old(self).max,
            final(self).current == max_int(old(self).current - amount, 0),
    {
        self.current = if self.current > amount { self.current - amount } else { 0 };
    }
}

pub open spec fn min_int(a: int, b: int) -> int {
    if a < b { a } else { b }
}

pub open spec fn max_int(a: int, b: int) -> int {
    if a > b { a } else { b }
}

/// How many projectiles a shot fans out into, and the cap that upgrades stop at.
#[derive(Clone, Copy, Debug, PartialEq, Eq, Structural)]
pub struct Weapon {
    pub bullets: u16,
    pub max: u16,
    /// Spread of the fan in degrees; carried, but the fan is always a full turn.
    pub spread: u16,
}

impl Weapon {
    pub open spec fn wf(&self) -> bool {
        self.bullets <= self.max
    }

    /// Raises `bullets` by `amount`, no higher than `max`.
    pub fn upgrade(&mut self, amount: u16)
        ensures
            final(self).max == old(self).max,
            final(self).spread == old(self).spread,
            final(self).bullets == min_int(old(self).bullets + amount, old(self).max as int),
    {
        let raised = self.bullets as u32 + amount as u32;
        self.bullets = if raised < self.max as u32 { raised as u16 } else { self.max };
    }
}

/// The last time a combatant fired, and how long it must wait before firing again.
#[derive(Clone, Copy, Debug, PartialEq, Eq, Structural)]
pub struct Cooldown {
    pub start_time: u64,
    pub duration: u64,
}

impl Cooldown {
    pub open spec fn ready_at(&self, now: u64) -> bool {
        now > self.start_time + self.duration
    }

    /// The cooldown gate: ready strictly after `start_time + duration`.
    pub fn is_ready(&self, now: u64) -> (r: bool)
        ensures
            r == self.ready_at(now),
    {
        now > self.start_time && now - self.start_time > self.duration
    }

    /// The cooldown after a shot fired at `now`: same duration, restarted.
    pub fn restarted(&self, now: u64) -> (r: Cooldown)
        ensures
            r.start_time == now,
            r.duration == self.duration,
    {
        Cooldown { start_time: now, duration: self.duration }
    }

    /// How far the cooldown has run at `now`, in thousandths (0 to 1000).
    pub fn ratio_permille(&self, now: u64) -> (r: u64)
        ensures
            r <= 1000,
            self.duration == 0 || now >= self.start_time + self.duration ==> r == 1000,
            self.duration > 0 && now <= self.start_time ==> r == 0,
            self.duration > 0 && self.start_time < now < self.start_time + self.duration ==> r
                == (now - self.start_time) * 1000 / (self.duration as int),
    {
        if self.duration > 0 && now <= self.start_time {
            0
        } else if self.duration == 0 || now - self.start_time >= self.duration {
            1000
        } else {
            let run = now - self.start_time;
            proof {
                assert(run * 1000 / (self.duration as int) <= 1000) by (nonlinear_arith)
                    requires
                        run < self.duration,
                        self.duration > 0,
                ;
                assert(run * 1000 <= u64::MAX * 1000) by (nonlinear_arith);
            }
            (run as u128 * 1000u128 / self.duration as u128) as u64
        }
    }
}

/// Index of a team into the fixed palette.
#[derive(Clone, Copy, Debug, PartialEq, Eq, Structural)]
pub struct TeamIdx(pub usize);

/// The player's team.
pub const PLAYER_TEAM: usize = 0;

/// The team of every enemy.
pub const AI_TEAM: usize = 1;

/// What kind of combatant this is.
#[derive(Clone, Copy, Debug, PartialEq, Eq, Structural)]
pub enum Tier {
    Normal,
    Elite,
    Player,
}

impl Tier {
    /// Enemies (normal and elite) are driven by the AI.
    pub open spec fn is_ai(self) -> bool {
        self != Tier::Player
    }

    pub fn is_player(&self) -> (r: bool)
        ensures
            r == (*self == Tier::Player),
    {
        match self {
            Tier::Player => true,
            _ => false,
        }
    }

    pub open spec fn drop_count_spec(self) -> nat {
        match self {
            Tier::Elite => 3,
            _ => 1,
        }
    }

    /// Number of pickups dropped on death: three for an elite, one otherwise.
    pub fn drop_count(&self) -> (r: u16)
        ensures
            r == self.drop_count_spec(),
    {
        match self {
            Tier::Elite => 3,
            _ => 1,
        }
    }
}

} // verus!
