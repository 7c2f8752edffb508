use vstd::prelude::*;

verus! {

/// Micro-units in one room unit.
pub const UNIT: i32 = 1_000_000;

/// Microseconds in one second.
pub const MICROS_PER_SECOND: u64 = 1_000_000;

/// A point of the plane, in micro-units.
#[derive(Clone, Copy, Debug, PartialEq, Eq, Structural)]
pub struct Position {
    pub x: i32,
    pub y: i32,
}

/// A velocity, in micro-units per second.
#[derive(Clone, Copy, Debug, PartialEq, Eq, Structural)]
pub struct Velocity {
    pub x: i64,
    pub y: i64,
}

/// The room `[-half_x, half_x] x [-half_y, half_y]`, in micro-units.
///
/// A half size may be zero or negative: such a room holds no balls.
#[derive(Clone, Copy, Debug, PartialEq, Eq, Structural)]
pub struct Room {
    pub half_x: i32,
    pub half_y: i32,
}

/// The smallest half size for which a ball pulled back one unit inside the
/// room still has a coordinate that fits in an `i32`.
pub open spec fn min_half() -> int {
    UNIT - i32::MAX
}

impl Room {
    /// Both half sizes are large enough for [`crate::clamp_to_room`].
    pub open spec fn wf(&self) -> bool {
        self.half_x >= min_half() && self.half_y >= min_half()
    }
}

} // verus!
