//! Numbers and geometry as the adapter carries them.
//!
//! Window systems report positions, scale factors and wheel movements as
//! binary floating-point numbers. The adapter never computes with them: it
//! decides which number is divided by which scale factor, or multiplied by
//! which unit, and records that decision in the value it hands on. The
//! arithmetic itself is done by whoever turns these values into the GUI's own
//! types.
use vstd::prelude::*;

verus! {

/// Points that one wheel line stands for.
pub const LINE_HEIGHT: u32 = 8;

/// Vertical points of wheel movement that zoom by a factor of `e`.
pub const ZOOM_DIVISOR: u32 = 200;

/// The bit pattern of the double-precision number 1.
pub const ONE_BITS: u64 = 0x3ff0_0000_0000_0000;

/// A double-precision IEEE 754 number, held by its bit pattern. A number that
/// the window system reports in single precision is carried widened, which
/// loses nothing.
#[derive(Clone, Copy, Debug, PartialEq, Eq, Hash, Structural)]
pub struct Scalar {
    pub bits: u64,
}

impl Scalar {
    /// The number 0.
    pub open spec fn zero() -> Scalar {
        Scalar { bits: 0 }
    }

    /// The number 1.
    pub open spec fn one() -> Scalar {
        Scalar { bits: ONE_BITS }
    }
}

/// A position in physical pixels.
#[derive(Clone, Copy, Debug, PartialEq, Eq, Hash, Structural)]
pub struct Point {
    pub x: Scalar,
    pub y: Scalar,
}

/// A position in logical coordinates: each of `x` and `y`, narrowed to single
/// precision, divided by `scale` narrowed likewise.
#[derive(Clone, Copy, Debug, PartialEq, Eq, Hash, Structural)]
pub struct LogicalPos {
    pub x: Scalar,
    pub y: Scalar,
    pub scale: Scalar,
}

impl LogicalPos {
    /// The physical position `point` under the scale factor `scale`.
    pub open spec fn of(point: Point, scale: Scalar) -> LogicalPos {
        LogicalPos { x: point.x, y: point.y, scale }
    }

    /// The origin: zero divided by one.
    pub open spec fn origin() -> LogicalPos {
        LogicalPos { x: Scalar::zero(), y: Scalar::zero(), scale: Scalar::one() }
    }
}

/// The screen rectangle in logical units. Its corner is fixed at the origin
/// and its size is `width` by `height` physical pixels, each divided by
/// `scale`.
#[derive(Clone, Copy, Debug, PartialEq, Eq, Hash, Structural)]
pub struct ScreenRect {
    pub width: u32,
    pub height: u32,
    pub scale: Scalar,
}

/// A wheel movement in points: each of `x` and `y` multiplied by `unit`, the
/// horizontal product negated where `invert_x` holds.
#[derive(Clone, Copy, Debug, PartialEq, Eq, Hash, Structural)]
pub struct ScrollDelta {
    pub x: Scalar,
    pub y: Scalar,
    pub unit: u32,
    pub invert_x: bool,
}

} // verus!
