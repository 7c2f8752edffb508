use vstd::prelude::*;
use crate::geometry::{Position, Velocity, Room, UNIT, MICROS_PER_SECOND};
use crate::store::{Ball, EntityStore};

verus! {

/// `v` cut to the range of `i32`.
pub open spec fn saturate(v: int) -> i32 {
    if v < i32::MIN {
        i32::MIN
    } else if v > i32::MAX {
        i32::MAX
    } else {
        v as i32
    }
}

/// Coordinate `c` after `dt` microseconds at speed `v`: the distance is
/// rounded toward minus infinity to a whole micro-unit, and a result beyond
/// the range of `i32` stops at its end.
pub open spec fn advance(c: i32, v: i64, dt: u64) -> i32 {
    saturate(c + (v * dt) / (MICROS_PER_SECOND as int))
}

/// Where a ball at `p` with velocity `v` is after `dt` microseconds.
pub open spec fn moved(p: Position, v: Velocity, dt: u64) -> Position {
    Position { x: advance(p.x, v.x, dt), y: advance(p.y, v.y, dt) }
}

/// Every ball of `s` moved for `dt` microseconds.
pub open spec fn integrated(s: Seq<Ball>, dt: u64) -> Seq<Ball> {
    Seq::new(s.len(), |i: int| s[i].with_position(moved(s[i].position, s[i].velocity, dt)))
}

/// The absolute value of `c`.
pub open spec fn abs(c: int) -> int {
    if c < 0 {
        -c
    } else {
        c
    }
}

/// Coordinate `c` of a room whose half size on that axis is `half`: a
/// coordinate beyond the wall jumps to one unit inside the wall on its own
/// side (zero counts as the positive side). This is a jump, not a bounce:
/// the velocity stays as it was.
pub open spec fn pulled_in(c: i32, half: i32) -> i32 {
    if abs(c as int) > half {
        if c >= 0 {
            (half - UNIT) as i32
        } else {
            (UNIT - half) as i32
        }
    } else {
        c
    }
}

/// Position `p` brought back into `room`.
pub open spec fn clamped(p: Position, room: Room) -> Position {
    Position { x: pulled_in(p.x, room.half_x), y: pulled_in(p.y, room.half_y) }
}

/// Every ball of `s` brought back into `room`.
pub open spec fn clamped_all(s: Seq<Ball>, room: Room) -> Seq<Ball> {
    Seq::new(s.len(), |i: int| s[i].with_position(clamped(s[i].position, room)))
}

fn advance_coord(c: i32, v: i64, dt: u64) -> (r: i32)
    ensures
        r == advance(c, v, dt),
{
    let m: i128 = MICROS_PER_SECOND as i128;
    assert(-0x8000_0000_0000_0000 * 0xffff_ffff_ffff_ffff <= v * dt <= 0x8000_0000_0000_0000
        * 0xffff_ffff_ffff_ffff) by (nonlinear_arith)
        requires
            -0x8000_0000_0000_0000 <= v < 0x8000_0000_0000_0000,
            0 <= dt <= 0xffff_ffff_ffff_ffff,
    ;
    let p: i128 = v as i128 * dt as i128;
    let q: i128 = if p >= 0 {
        p / m
    } else {
        let n: i128 = (-p + m - 1) / m;
        assert(-n == p / m);
        -n
    };
    let s: i128 = c as i128 + q;
    if s < i32::MIN as i128 {
        i32::MIN
    } else if s > i32::MAX as i128 {
        i32::MAX
    } else {
        s as i32
    }
}

/// Moves every ball for `dt` microseconds at its own velocity.
pub fn integrate(store: &mut EntityStore, dt: u64)
    ensures
        final(store).balls() == integrated(old(store).balls(), dt),
        final(store).pending() == old(store).pending(),
{
    let ghost start = store.balls();
    let n = store.len();
    let mut i: usize = 0;
    while i < n
        invariant
            start == old(store).balls(),
            n == start.len(),
            i <= n,
            store.pending() == old(store).pending(),
            store.balls().len() == n,
            forall|k: int| 0 <= k < i ==> #[trigger] store.balls()[k] == integrated(start, dt)[k],
            forall|k: int| i <= k < n ==> #[trigger] store.balls()[k] == start[k],
        decreases n - i,
    {
        let b = store.ball(i);
        let p = Position { x: advance_coord(b.position.x, b.velocity.x, dt), y: advance_coord(b.position.y, b.velocity.y, dt) };
        store.set_position(i, p);
        i = i + 1;
    }
    assert(store.balls() =~= integrated(start, dt));
}

fn pull_in(c: i32, half: i32) -> (r: i32)
    requires
        half >= UNIT - i32::MAX,
    ensures
        r == pulled_in(c, half),
{
    let a: i64 = if c < 0 { -(c as i64) } else { c as i64 };
    if a > half as i64 {
        if c >= 0 {
            half - UNIT
        } else {
            UNIT - half
        }
    } else {
        c
    }
}

/// Brings every ball that left `room` back inside it; see [`pulled_in`].
pub fn clamp_to_room(store: &mut EntityStore, room: &Room)
    requires
        room.wf(),
    ensures
        final(store).balls() == clamped_all(old(store).balls(), *room),
        final(store).pending() == old(store).pending(),
{
    let ghost start = store.balls();
    let n = store.len();
    let mut i: usize = 0;
    while i < n
        invariant
            room.wf(),
            start == old(store).balls(),
            n == start.len(),
            i <= n,
            store.pending() == old(store).pending(),
            store.balls().len() == n,
            forall|k: int| 0 <= k < i ==> #[trigger] store.balls()[k] == clamped_all(start, *room)[k],
            forall|k: int| i <= k < n ==> #[trigger] store.balls()[k] == start[k],
        decreases n - i,
    {
        let b = store.ball(i);
        let p = Position { x: pull_in(b.position.x, room.half_x), y: pull_in(b.position.y, room.half_y) };
        store.set_position(i, p);
        i = i + 1;
    }
    assert(store.balls() =~= clamped_all(start, *room));
}

} // verus!
