//! Core logic of a speedrun autosplitter: decoding a bit-packed status word
//! into a scene classification, detecting edge-triggered transitions between
//! two consecutive snapshots, and advancing a split cursor through an ordered
//! catalog of world-space regions.
//!
//! Coordinates and elapsed time are carried as fixed-point integers:
//! world-space positions in thousandths of a game unit, game time in
//! milliseconds. The host that polls the game process converts its raw
//! readings to these units before handing them to this crate.

pub mod catalog;
pub mod decode;
pub mod engine;
pub mod geometry;
pub mod laws;
