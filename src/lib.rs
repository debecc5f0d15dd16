//! A falling-characters terminal animation, as a verified per-frame simulation.
//!
//! The library decides everything that happens in a frame: which lanes start a
//! new particle, which cells each particle paints, where each particle moves and
//! which particles leave the screen. Painting the cells on a real terminal is left
//! to the caller, which receives the frame's writes as plain values.

pub mod particle;
pub mod spawner;
pub mod engine;
pub mod config;
pub mod random;
pub mod frame;
