//! Core simulation of a two-sided arcade space-combat duel.
//!
//! The library advances ship motion, resolves projectile lifecycle, detects
//! and resolves collisions, applies damage, and adjudicates destruction and
//! scoring.  All continuous quantities (positions, velocities, angles, timers)
//! are fixed-point integers with a scale of 1000 units per 1.0, so that every
//! update is exact and verified.  Rendering, audio and input devices are
//! outside the core: the resolvers read plain input values and emit cue
//! events for those collaborators to consume.

pub mod collision_system;
pub mod components;
pub mod fx;
pub mod input;
pub mod laser;
pub mod laws;
pub mod move_laser;
pub mod physics;
pub mod rng;
pub mod ship_movement;
pub mod spawn;
pub mod tick;
pub mod trig;
pub mod winner;
pub mod world;
