//! Locomotion and grounding core of a real-time character simulation.
//!
//! The crate converts per-tick movement intents (walk toward a direction,
//! jump, sprint) into forces and impulses on a rigid body, decides each
//! character's grounded state from a downward shape-cast result, selects an
//! animation state from the resulting physical state, and fixes the order in
//! which those stages run around an external physics step.
//!
//! All physical quantities are fixed-point integers: scalar speeds, heights,
//! accelerations, masses and durations carry three fractional decimal digits
//! (milli scale), vector components carry six (micro scale), and the "up"
//! axis is stored at milli scale with squared length exactly one.

pub mod character_controller;
pub mod components;
pub mod fixed;
pub mod general_movement;
pub mod physics;
pub mod system_set;
pub mod vec3;
