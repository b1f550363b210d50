//! Track pieces and the metadata that gameplay reads from them. Lengths and
//! heights are in thousandths of a track unit, angles in millionths of a
//! radian.
use vstd::prelude::*;

verus! {

/// Pi in millionths of a radian, rounded.
pub const PI_MICRO: i32 = 3_141_593;

/// The kind and shape of one track piece.
#[derive(Debug, Clone, Copy, PartialEq, Eq, Structural)]
pub enum BlockType {
    /// A flat corridor of `length` along the local forward axis.
    Straight { length: i32 },
    /// A flat arc turning by `angle` (millionths of a radian) around a centre
    /// `radius` to the side.
    Turn { angle: i32, radius: i32 },
    /// A turn whose inner edge rises by up to `bank_height` mid-arc.
    BankedTurn { angle: i32, radius: i32, bank_height: i32 },
    /// A corridor of `length` whose far end sits `height_change` higher.
    Slope { length: i32, height_change: i32 },
    /// A straight corridor whose floor is displaced by noise of amplitude
    /// `pertubation`.
    Bumpy { length: i32, pertubation: i32 },
}

/// Surface material of a piece; it decides friction only.
#[derive(Debug, Clone, Copy, PartialEq, Eq, Structural)]
pub enum RoadType {
    Asphalt,
    Ice,
}

/// Gameplay effect attached to a piece; geometry ignores it.
#[derive(Debug, Clone, Copy, PartialEq, Eq, Structural)]
pub enum BallModifier {
    /// Gravity scaled by `strength` (thousandths) for `duration_secs` seconds.
    GravityChange { strength: i32, duration_secs: u64 },
    Unmodified,
}

/// Absolute value of a sample, as a non-negative integer.
pub open spec fn abs_spec(v: int) -> int {
    if v < 0 { -v } else { v }
}

/// Whether a noise sample lies in the range a noise field produces.
pub open spec fn sample_ok(v: i32) -> bool {
    -1_000_000 <= v <= 1_000_000
}

pub fn abs_sample(v: i32) -> (r: i32)
    requires
        sample_ok(v),
    ensures
        r == abs_spec(v as int),
{
    if v < 0 { -v } else { v }
}

} // verus!
