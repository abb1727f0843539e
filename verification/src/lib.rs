//! Simulation core of a small 2D arcade shooter: a turret fires projectiles
//! upward at waves of horizontally moving enemy cars.
//!
//! The crate holds the game-state update engine only: entity spawning and
//! lifecycle, movement and culling, collision resolution, scoring, the
//! power-up, and the game-over/restart state machine.  Rendering, audio,
//! input classification and the frame loop are the surrounding runtime's
//! business; the core consumes plain per-tick inputs ([`types::TickInput`])
//! and leaves behind a state whose entity mirror ([`state::Registry`]) the
//! runtime renders, plus a list of sound cues to play.
//!
//! Positions are millipixels (`i64`), durations milliseconds, speeds whole
//! pixels per second, so that one tick's motion `speed * dt` is exact
//! fixed-point arithmetic.

pub mod collide;
pub mod laws;
pub mod motion;
mod rng;
pub mod spawn;
pub mod state;
pub mod tick;
pub mod types;
