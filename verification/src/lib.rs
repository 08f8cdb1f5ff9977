//! Core logic of a small single-player tank demo: key-press state, the
//! per-tick update that turns held keys into position and turret-angle
//! deltas, and the all-or-nothing sprite-load rule.
//!
//! Positions, angles and elapsed time are fixed-point integers: a tick is
//! the unit of time and the tank covers `SPEED` position units per tick on
//! each held axis. The windowing, texture loading and drawing sit outside
//! the library and hand it plain values.

pub mod engine;
pub mod object;
