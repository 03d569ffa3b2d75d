//! The sensitivity thresholds of a document.

use vstd::prelude::*;

verus! {

/// A scale factor or an angle, held as the bit pattern of an IEEE 754
/// double-precision number.
///
/// The library compares and forwards magnitudes but never computes with
/// them, so the pattern is all it keeps.
#[derive(Clone, Copy, Debug, PartialEq, Eq, Structural)]
pub struct Magnitude {
    pub bits: u64,
}

/// The four thresholds that every trigger of one document shares: one per
/// kind of gesture.
#[derive(Clone, Copy, Debug, PartialEq, Eq, Structural)]
pub struct Thresholds {
    /// Distance for fingers to travel before a swipe fires.
    pub swipe_distance: u32,
    /// Distance for fingers to travel before a shear fires.
    pub shear_distance: u32,
    /// Scale to reach before a pinch fires.
    pub pinch_distance: Magnitude,
    /// Angle to turn before a rotation fires.
    pub rotation_distance: Magnitude,
}

/// Bit pattern of the default pinch scale, one and four tenths.
pub const DEFAULT_PINCH_BITS: u64 = 0x3FF6_6666_6666_6666;

/// Bit pattern of the default rotation angle, sixty degrees.
pub const DEFAULT_ROTATION_BITS: u64 = 0x404E_0000_0000_0000;

/// The thresholds of a document that names none.
pub open spec fn spec_default_thresholds() -> Thresholds {
    Thresholds {
        swipe_distance: 100,
        shear_distance: 100,
        pinch_distance: Magnitude { bits: DEFAULT_PINCH_BITS },
        rotation_distance: Magnitude { bits: DEFAULT_ROTATION_BITS },
    }
}

/// The distance that stands in for an absent `swipe_distance` or
/// `shear_distance`.
pub fn default_distance() -> (distance: u32)
    ensures
        distance == 100,
{
    100
}

/// The scale that stands in for an absent `pinch_distance`.
pub fn default_pinch() -> (scale: Magnitude)
    ensures
        scale.bits == DEFAULT_PINCH_BITS,
{
    Magnitude { bits: DEFAULT_PINCH_BITS }
}

/// The angle that stands in for an absent `rotation_distance`.
pub fn default_rotation() -> (angle: Magnitude)
    ensures
        angle.bits == DEFAULT_ROTATION_BITS,
{
    Magnitude { bits: DEFAULT_ROTATION_BITS }
}

} // verus!
