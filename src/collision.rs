use vstd::prelude::*;
use crate::geometry::{Position, Velocity, UNIT};

verus! {

/// The squared distance, in square micro-units, under which two balls
/// collide: four square units.
pub open spec fn reach() -> int {
    4 * UNIT * UNIT
}

/// The collision test. It subtracts the squared vertical gap from the
/// squared horizontal one instead of adding them, so two balls on one
/// vertical line always collide, however far apart they are.
pub open spec fn collides(a: Position, b: Position) -> bool {
    (a.x - b.x) * (a.x - b.x) - (a.y - b.y) * (a.y - b.y) <= reach()
}

/// The velocity that a collision gives `a`: its offset from `b`.
pub open spec fn separation(a: Position, b: Position) -> Velocity {
    Velocity { x: (a.x - b.x) as i64, y: (a.y - b.y) as i64 }
}

/// The velocity that `a` takes when it collides with `b`, or `None` when the
/// two do not collide.
pub fn collision_check(a: &Position, b: &Position) -> (r: Option<Velocity>)
    ensures
        r == (if collides(*a, *b) { Some(separation(*a, *b)) } else { None::<Velocity> }),
{
    let dx: i64 = a.x as i64 - b.x as i64;
    let dy: i64 = a.y as i64 - b.y as i64;
    assert(0 <= dx * dx <= 0x1_0000_0000i128 * 0x1_0000_0000i128) by (nonlinear_arith)
        requires -0x1_0000_0000 <= dx <= 0x1_0000_0000;
    assert(0 <= dy * dy <= 0x1_0000_0000i128 * 0x1_0000_0000i128) by (nonlinear_arith)
        requires -0x1_0000_0000 <= dy <= 0x1_0000_0000;
    let sx: i128 = dx as i128 * dx as i128;
    let sy: i128 = dy as i128 * dy as i128;
    let limit: i128 = 4 * (UNIT as i128) * (UNIT as i128);
    assert(sx - sy == (a.x - b.x) * (a.x - b.x) - (a.y - b.y) * (a.y - b.y));
    if sx - sy <= limit {
        Some(Velocity { x: dx, y: dy })
    } else {
        None
    }
}

} // verus!
