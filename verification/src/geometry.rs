use vstd::prelude::*;

verus! {

/// Length units per pixel: every length and coordinate is a whole number of
/// tenths of a pixel.
pub const UNITS_PER_PIXEL: u32 = 10;

/// Angle units per radian: every angle is a whole number of thousandths of a
/// radian.
pub const ANGLE_UNITS_PER_RADIAN: u32 = 1000;

/// A full turn in angle units, rounded up: a whole number of angle units is
/// at least two pi radians exactly when it is at least this, so every angle
/// below it is below a full turn.
pub const FULL_TURN: u32 = 6284;

/// A position on, or off the edge of, the viewport.
#[derive(Clone, Copy, Debug, PartialEq, Eq, Structural)]
pub struct Point {
    pub x: i64,
    pub y: i64,
}

/// The extent of a viewport, an image or a measured line of text.
#[derive(Clone, Copy, Debug, PartialEq, Eq, Structural)]
pub struct Size {
    pub width: u32,
    pub height: u32,
}

} // verus!
