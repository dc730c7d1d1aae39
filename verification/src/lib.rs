//! Per-frame reconciliation of tracked hand-joint poses and velocities with
//! the transform and velocity state of simulated hand bones.
//!
//! Each simulation tick, while a tracking session is active, the pipeline
//! selects a query timestamp, takes one joint-sample set per tracked hand
//! from the tracking source, merges the samples into per-bone state gated by
//! per-field validity flags, and then copies the fused velocities into the
//! rigid-body velocity fields read by the physics engine.
//!
//! Scalars (positions, orientations, radii, velocities) are carried as
//! IEEE-754 single-precision bit patterns in `u32` fields: the pipeline never
//! does arithmetic on them, it only selects and copies them, so the exact bit
//! pattern delivered by the tracking source is what reaches the physics state.

pub mod frame;
pub mod merge;
pub mod skeleton;
pub mod state;
pub mod tick;
pub mod transfer;
