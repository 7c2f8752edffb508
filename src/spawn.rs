use vstd::prelude::*;
use rand::Rng;
use crate::geometry::{Position, Velocity, Room, UNIT};
use crate::store::EntityStore;

verus! {

/// The number of balls of a run in `room`: the room's area in square units,
/// rounded down, and none when a half size is not positive.
pub open spec fn count_for(room: Room) -> int {
    if room.half_x > 0 && room.half_y > 0 {
        (2 * room.half_x) * (2 * room.half_y) / (UNIT * UNIT)
    } else {
        0
    }
}

/// The number of balls of a run in `room`; see [`count_for`].
pub fn entity_count(room: &Room) -> (r: usize)
    ensures
        r == count_for(*room),
{
    if room.half_x > 0 && room.half_y > 0 {
        let hx = room.half_x as u128;
        let hy = room.half_y as u128;
        assert(0 <= (2 * hx) * (2 * hy) <= 0x1_0000_0000u128 * 0x1_0000_0000u128) by (nonlinear_arith)
            requires
                0 < hx < 0x8000_0000,
                0 < hy < 0x8000_0000,
        ;
        let area: u128 = (2 * hx) * (2 * hy);
        let unit = UNIT as u128;
        let n: u128 = area / (unit * unit);
        assert(n <= 0x1_0000_0000u128 * 0x1_0000_0000u128 / 1_000_000_000_000) by (nonlinear_arith)
            requires
                area <= 0x1_0000_0000u128 * 0x1_0000_0000u128,
                n == area / 1_000_000_000_000,
        ;
        n as usize
    } else {
        0
    }
}

/// The generator of the current thread, as rand 0.7 has it.
#[verifier::external_type_specification]
#[verifier::external_body]
pub struct ExThreadRng(rand::rngs::ThreadRng);

/// Relies on `rand::thread_rng` (rand 0.7): a handle on the thread's
/// generator. Nothing is known of what it will draw.
pub assume_specification[ rand::thread_rng ]() -> rand::rngs::ThreadRng;

/// Relies on `rand::Rng::gen_range` (rand 0.7) for `i64`: a value drawn
/// from `low..high`, the upper end left out. `gen_range` panics unless
/// `low < high`.
#[verifier::external_body]
fn random_between(rng: &mut rand::rngs::ThreadRng, low: i64, high: i64) -> (r: i64)
    requires
        low < high,
    ensures
        low <= r < high,
{
    rng.gen_range(low, high)
}

/// Whether `store` holds `count_for(room)` balls, none with the marker,
/// each inside `room` (the upper walls left out) with both components of
/// its velocity in `-1..1` units per second, and nothing queued.
pub open spec fn freshly_spawned(store: EntityStore, room: Room) -> bool {
    &&& store.balls().len() == count_for(room)
    &&& store.pending().len() == 0
    &&& forall|i: int|
        0 <= i < store.balls().len() ==> {
            let b = #[trigger] store.balls()[i];
            &&& -room.half_x <= b.position.x < room.half_x
            &&& -room.half_y <= b.position.y < room.half_y
            &&& -UNIT <= b.velocity.x < UNIT
            &&& -UNIT <= b.velocity.y < UNIT
            &&& !b.marked
        }
}

/// The balls of a new run in `room`, at random places with random
/// velocities; see [`freshly_spawned`].
pub fn spawn_random(room: &Room) -> (r: EntityStore)
    ensures
        freshly_spawned(r, *room),
{
    let n = entity_count(room);
    let mut store = EntityStore::new();
    let mut rng = rand::thread_rng();
    let mut i: usize = 0;
    while i < n
        invariant
            n == count_for(*room),
            i <= n,
            store.balls().len() == i,
            forall|k: int|
                0 <= k < i ==> {
                    let b = #[trigger] store.balls()[k];
                    &&& -room.half_x <= b.position.x < room.half_x
                    &&& -room.half_y <= b.position.y < room.half_y
                    &&& -UNIT <= b.velocity.x < UNIT
                    &&& -UNIT <= b.velocity.y < UNIT
                    &&& !b.marked
                },
            store.pending().len() == 0,
        decreases n - i,
    {
        assert(room.half_x > 0 && room.half_y > 0);
        let hx = room.half_x as i64;
        let hy = room.half_y as i64;
        let x = random_between(&mut rng, -hx, hx) as i32;
        let y = random_between(&mut rng, -hy, hy) as i32;
        let vx = random_between(&mut rng, -(UNIT as i64), UNIT as i64);
        let vy = random_between(&mut rng, -(UNIT as i64), UNIT as i64);
        store.spawn(Position { x, y }, Velocity { x: vx, y: vy });
        i = i + 1;
    }
    store
}

} // verus!
