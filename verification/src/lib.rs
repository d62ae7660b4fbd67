//! Core of a 5x5 LED-matrix snake game: the translation layer from semantic
//! cell snapshots to physical pixel frames, the per-sweep pixel animation
//! math, the single-slot mailbox handoff primitive, and the game state
//! machine that produces the snapshots.
//!
//! Hardware access (GPIO lines, microsecond waits, task scheduling) lives
//! outside this library; everything here is plain data and verified logic.

pub mod animation;
pub mod buttons;
pub mod cellset;
pub mod difficulty;
pub mod game;
pub mod led;
pub mod mailbox;
pub mod pixel;
pub mod rb;
pub mod rng;
