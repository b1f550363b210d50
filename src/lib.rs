//! Deterministic generation of a winding, descending race track and the
//! tessellation plan of each of its pieces.
//!
//! Quantities are fixed point: lengths and heights in thousandths of a track
//! unit, angles in millionths of a radian, and noise samples in millionths
//! (a sample lies in `[-1_000_000, 1_000_000]`).
pub mod mesh;
pub mod piece;
pub mod track;
