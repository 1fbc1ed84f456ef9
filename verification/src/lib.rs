//! Simulation core of a 2D bullet-hell shooter: projectile formations and
//! attack cadence, a per-tick collision pipeline, entity lifecycle (damage,
//! death, loot, scoring) and the level driver. All quantities are fixed-point
//! integers (thousandths of a world unit), so that every rule is exact.

pub mod bullet;
pub mod collectables;
pub mod collisions;
pub mod enemy;
pub mod event;
pub mod fixed;
pub mod formation;
pub mod geometry;
pub mod levels;
pub mod player;
pub mod rng;
pub mod shared;
pub mod timer;
pub mod trig;
