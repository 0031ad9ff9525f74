//! Per-frame gameplay simulation core of a 2D side-scrolling platformer.
//!
//! The crate resolves player movement and jumping against ground contact,
//! elemental-ability casting and projectile/world collision outcomes, and the
//! death/respawn lifecycle, while keeping a discrete animation state in
//! lockstep with physics state.  Time is measured in integer milliseconds and
//! velocities in integer thousandths of a world unit per second, so every
//! rule is exact and provable.  Collision detection, rigid-body integration,
//! rendering, audio and input decoding are external collaborators: the core
//! consumes decoded intent snapshots and collision start/stop notifications
//! and produces velocities, animation frame windows and effect requests.

pub mod abilities;
pub mod animation;
pub mod damage;
pub mod debug;
pub mod destruction;
pub mod entity;
pub mod input;
pub mod level;
pub mod physics;
pub mod state;
pub mod timer;
