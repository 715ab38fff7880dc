//! Real-time simulation core of a top-down stealth game: an ability-casting
//! state machine with interrupt semantics, per-ability cooldown tracking, a
//! dash that overrides movement for a fixed duration, axis-separated collision
//! resolution against a static boundary list, and a geometric detection engine
//! (vision wedges gated by concealment effects).
//!
//! Everything is simulated on integer fixed-point values: world coordinates
//! are plain `i64` units and every timer counts down in whole milliseconds, so
//! each tick is exact and deterministic.

pub mod casting;
pub mod dash;
pub mod detect;
pub mod effects;
pub mod geom;
pub mod input;
pub mod movement;
pub mod sim;
pub mod skills;
pub mod spells;
