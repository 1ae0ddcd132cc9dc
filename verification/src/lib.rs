//! Control core of a 2D lander-style arcade game.
//!
//! The library models the per-frame movement pipeline (input mapping,
//! engine-power resource, impulse and exhaust derivation) and the one-shot
//! procedural terrain builder. All quantities are fixed-point integers in
//! micro-units: one unit of the game's scalar domain is `MICRO` micro-units,
//! and frame durations are given in microseconds. The rendering, physics
//! integration and noise sampling backends are external collaborators; they
//! exchange plain fixed-point values with this library at its boundary.

use vstd::prelude::*;

pub mod controller;
pub mod events;
pub mod power;
pub mod terrain;

verus! {

/// Number of micro-units in one scalar unit.
pub const MICRO: u64 = 1_000_000;

} // verus!
