//! Simulation core of a top-down arena shooter: combatant stats, the
//! cooldown gate, projectile fans, damage resolution, pickups, enemy
//! spawning, difficulty decay, AI targeting and firing, and respawn.
//!
//! The world is kept in integer units: positions in whole arena units,
//! health in thousandths of a hit point, time in milliseconds.
pub mod ai;
pub mod bullets;
pub mod chance;
pub mod damage;
pub mod events;
pub mod game;
pub mod geometry;
pub mod pickups;
pub mod player;
pub mod schedule;
pub mod stats;
pub mod world;
