//! Frame-update logic for a small sprite-collecting game.
//!
//! The host engine owns the window, the input devices and the render loop;
//! this crate owns the per-frame rules: scoring on collisions, keyboard
//! movement, spawning collectible sprites by mouse click and on a repeating
//! timer, score / high-score text upkeep, and the exit and reset keys.
//! All positions are held in sub-pixel units and all durations in
//! microseconds, so the rules are stated and proved over plain integers;
//! the host converts at the boundary.

pub mod fmt;
pub mod laws;
pub mod model;
pub mod rng;
pub mod state;
pub mod timer;
pub mod update;
pub mod world;

