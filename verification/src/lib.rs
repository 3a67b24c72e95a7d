//! Core of a turn-based encounter simulator: a battle phase state machine
//! with two embedded mini-simulations, a timing-bar skill check and a
//! bullet-avoidance phase with pattern generation, projectile integration
//! and collision resolution.
//!
//! All simulation state is held in plain integers: positions and offsets in
//! milli-units (one thousandth of a world unit), speeds in world units per
//! second, and timers in milliseconds, so that `position += velocity * dt`
//! is exact integer arithmetic.

pub mod bullets;
pub mod combat;
pub mod components;
pub mod config;
pub mod laws;
pub mod timing;
