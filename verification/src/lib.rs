//! Decision core for a turn-based arena agent controlling three cooperating
//! units: a Reaper (harvests water from wrecks), a Destroyer (destroys
//! tankers and throws a ranged skill), and a Doof (generates rage from its
//! own speed).
//!
//! Each turn the agent receives a snapshot of every object in the arena,
//! classifies the rows into typed collections, and emits one command per
//! controlled unit. All decisions use only the current turn's snapshot; no
//! state persists across turns except the round counter.

pub mod classify;
pub mod decisions;
pub mod entities;
pub mod geometry;
