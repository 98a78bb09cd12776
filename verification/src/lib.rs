//! Core of a two-thread rendering architecture: a logic side decides which
//! GPU buffer resources should exist, a presentation side exclusively owns
//! the real graphics device. The two are decoupled by an ordered command
//! queue of resource-lifecycle requests, a single-slot coalescing resize
//! signal in the reverse direction, and a slot/generation protocol that
//! guarantees a buffer is never used after deletion and never leaked when a
//! drawable is regenerated.

pub mod command;
pub mod ids;
pub mod mesh;
pub mod protocol;
pub mod resize;
pub mod table;
