use vstd::prelude::*;
use crate::geometry::{Position, Room, UNIT};
use crate::collision::{collides, separation};
use crate::store::{Ball, MarkerChange, marked_after};
use crate::motion::{integrated, clamped_all, pulled_in, abs, advance};
use crate::spawn::{count_for, freshly_spawned};
use crate::store::EntityStore;
use crate::simulation::{
    first_partner,
    first_partner_from,
    deflected,
    scanned,
    toggle_pass,
    toggle_scanned,
    ticked,
    run,
    lemma_first_partner_from,
};

verus! {

/// `a` and `b` hold the same balls but for their velocities.
pub open spec fn same_places(a: Seq<Ball>, b: Seq<Ball>) -> bool {
    &&& a.len() == b.len()
    &&& forall|i: int|
        0 <= i < a.len() ==> (#[trigger] a[i]).position == b[i].position && a[i].marked
            == b[i].marked
}

/// A deflection changes velocities only.
pub proof fn lemma_deflected_places(s: Seq<Ball>, i: int, group: Option<bool>)
    ensures
        same_places(deflected(s, i, group), s),
{
    lemma_first_partner_from(s, i, group, 0);
}

/// The scan of the plain mode changes velocities only.
pub proof fn lemma_scanned_places(s: Seq<Ball>, n: int)
    ensures
        same_places(scanned(s, n), s),
    decreases n,
{
    if n > 0 {
        lemma_scanned_places(s, n - 1);
        lemma_deflected_places(scanned(s, n - 1), n - 1, None);
    }
}

/// A pass of the toggling mode changes velocities only.
pub proof fn lemma_toggle_pass_places(st: (Seq<Ball>, Seq<MarkerChange>), marked: bool, n: int)
    ensures
        same_places(toggle_pass(st, marked, n).0, st.0),
    decreases n,
{
    if n > 0 {
        lemma_toggle_pass_places(st, marked, n - 1);
        let prev = toggle_pass(st, marked, n - 1);
        let (s, q) = prev;
        lemma_deflected_places(s, n - 1, Some(false));
        let mid = match first_partner(s, n - 1, Some(false)) {
            Some(_) => deflected(s, n - 1, Some(false)),
            None => s,
        };
        lemma_deflected_places(mid, n - 1, Some(true));
    }
}

/// During the scan of the toggling mode no marker changes: the changes it
/// decides are only queued, and no ball moves either.
pub proof fn lemma_toggle_scan_keeps_markers(s: Seq<Ball>, q: Seq<MarkerChange>)
    ensures
        same_places(toggle_scanned(s, q).0, s),
{
    lemma_toggle_pass_places((s, q), false, s.len() as int);
    let st = toggle_pass((s, q), false, s.len() as int);
    lemma_toggle_pass_places(st, true, s.len() as int);
}

/// Queued changes take effect in order: a removal queued after an addition
/// for the same ball leaves it without the marker, an addition queued after
/// a removal leaves it with the marker, whatever came before, and a ball
/// that neither change names keeps what it had.
pub proof fn lemma_last_request_wins(marked: bool, q: Seq<MarkerChange>, e: usize, other: int)
    requires
        other != e,
    ensures
        !marked_after(marked, q.push(MarkerChange::Add(e)).push(MarkerChange::Remove(e)), e as int),
        marked_after(marked, q.push(MarkerChange::Remove(e)).push(MarkerChange::Add(e)), e as int),
        marked_after(marked, q.push(MarkerChange::Add(e)).push(MarkerChange::Remove(e)), other)
            == marked_after(marked, q, other),
        marked_after(marked, q.push(MarkerChange::Remove(e)).push(MarkerChange::Add(e)), other)
            == marked_after(marked, q, other),
{
    let a = q.push(MarkerChange::Add(e));
    let r = q.push(MarkerChange::Remove(e));
    assert(a.push(MarkerChange::Remove(e)).drop_last() == a);
    assert(a.drop_last() == q);
    assert(r.push(MarkerChange::Add(e)).drop_last() == r);
    assert(r.drop_last() == q);
    assert(marked_after(marked, a, other) == marked_after(marked, q, other));
    assert(marked_after(marked, r, other) == marked_after(marked, q, other));
}

/// Pulling back in twice is pulling back in once, in any room whose half
/// sizes are at least half a unit. (In a narrower room the first jump lands
/// outside the other wall.)
pub proof fn lemma_clamp_idempotent(s: Seq<Ball>, room: Room)
    requires
        room.wf(),
        2 * room.half_x >= UNIT,
        2 * room.half_y >= UNIT,
    ensures
        clamped_all(clamped_all(s, room), room) == clamped_all(s, room),
{
    let once = clamped_all(s, room);
    assert forall|i: int| 0 <= i < s.len() implies #[trigger] clamped_all(once, room)[i] == once[i] by {
        let p = s[i].position;
        assert(pulled_in(pulled_in(p.x, room.half_x), room.half_x) == pulled_in(p.x, room.half_x));
        assert(pulled_in(pulled_in(p.y, room.half_y), room.half_y) == pulled_in(p.y, room.half_y));
    }
    assert(clamped_all(once, room) =~= once);
}

/// Two balls on one vertical line collide, however far apart they are.
pub proof fn lemma_vertical_gap_collides(a: Position, b: Position)
    requires
        a.x == b.x,
    ensures
        collides(a, b),
{
    assert((a.y - b.y) * (a.y - b.y) >= 0) by (nonlinear_arith);
}

/// Each ball deflects one partner only, the first in index order: of three
/// balls that all collide with one another, the first ball deflects the
/// second, then the second and the third each deflect the first, and the
/// third ball keeps its velocity.
pub proof fn lemma_first_match_wins(s: Seq<Ball>)
    requires
        s.len() == 3,
        forall|i: int, j: int|
            0 <= i < 3 && 0 <= j < 3 && i != j ==> collides(#[trigger] s[i].position, #[trigger] s[j].position),
    ensures
        scanned(s, 3) == seq![
            s[0].with_velocity(separation(s[0].position, s[2].position)),
            s[1].with_velocity(separation(s[1].position, s[0].position)),
            s[2],
        ],
{
    let p0 = s[0].position;
    let p1 = s[1].position;
    let p2 = s[2].position;
    assert(collides(p1, p0));
    assert(collides(p0, p1));
    assert(collides(p0, p2));
    assert(first_partner_from(s, 0, None, 2) == Some(2int));
    assert(first_partner_from(s, 0, None, 1) == Some(1int));
    assert(first_partner(s, 0, None) == Some(1int));
    assert(scanned(s, 0) == s);
    let s1 = scanned(s, 1);
    assert(s1 == s.update(1, s[1].with_velocity(separation(p1, p0))));
    assert(first_partner(s1, 1, None) == Some(0int));
    let s2 = scanned(s, 2);
    assert(s2 == s1.update(0, s1[0].with_velocity(separation(p0, p1))));
    assert(first_partner(s2, 2, None) == Some(0int));
    assert(scanned(s, 3) == s2.update(0, s2[0].with_velocity(separation(p0, p2))));
    assert(scanned(s, 3) =~= seq![
        s[0].with_velocity(separation(p0, p2)),
        s[1].with_velocity(separation(p1, p0)),
        s[2],
    ]);
}

/// One tick neither creates nor destroys a ball, and changes velocities
/// and markers only once positions are settled.
pub proof fn lemma_tick_places(s: Seq<Ball>, q: Seq<MarkerChange>, room: Room, toggle: bool, dt: u64)
    ensures
        ticked(s, q, room, toggle, dt).0.len() == s.len(),
        forall|i: int|
            0 <= i < s.len() ==> (#[trigger] ticked(s, q, room, toggle, dt).0[i]).position
                == clamped_all(integrated(s, dt), room)[i].position,
{
    let placed = clamped_all(integrated(s, dt), room);
    if toggle {
        lemma_toggle_scan_keeps_markers(placed, q);
    } else {
        lemma_scanned_places(placed, s.len() as int);
    }
}

/// No tick creates or destroys a ball: after any number of ticks a run has
/// as many balls as it started with.
pub proof fn lemma_run_keeps_count(
    s: Seq<Ball>,
    q: Seq<MarkerChange>,
    room: Room,
    toggle: bool,
    dts: Seq<u64>,
)
    ensures
        run(s, q, room, toggle, dts).0.len() == s.len(),
    decreases dts.len(),
{
    if dts.len() > 0 {
        lemma_run_keeps_count(s, q, room, toggle, dts.drop_last());
        let prev = run(s, q, room, toggle, dts.drop_last());
        lemma_tick_places(prev.0, prev.1, room, toggle, dts.last());
    }
}

/// Every ball of `s` lies inside `room`, walls included.
pub open spec fn inside(s: Seq<Ball>, room: Room) -> bool {
    forall|i: int|
        0 <= i < s.len() ==> abs((#[trigger] s[i]).position.x as int) <= room.half_x && abs(
            s[i].position.y as int,
        ) <= room.half_y
}

/// Ticks of no time leave every position as it was when all balls are
/// inside the room: only velocities and markers change.
pub proof fn lemma_still_run_keeps_positions(
    s: Seq<Ball>,
    q: Seq<MarkerChange>,
    room: Room,
    toggle: bool,
    dts: Seq<u64>,
)
    requires
        inside(s, room),
        forall|k: int| 0 <= k < dts.len() ==> dts[k] == 0,
    ensures
        run(s, q, room, toggle, dts).0.len() == s.len(),
        forall|i: int|
            0 <= i < s.len() ==> (#[trigger] run(s, q, room, toggle, dts).0[i]).position
                == s[i].position,
    decreases dts.len(),
{
    if dts.len() > 0 {
        lemma_still_run_keeps_positions(s, q, room, toggle, dts.drop_last());
        let prev = run(s, q, room, toggle, dts.drop_last());
        assert(dts.last() == 0);
        lemma_tick_places(prev.0, prev.1, room, toggle, 0);
        assert forall|i: int| 0 <= i < s.len() implies #[trigger] clamped_all(
            integrated(prev.0, 0),
            room,
        )[i].position == s[i].position by {
            let b = prev.0[i];
            assert(b.velocity.x * 0 == 0);
            assert(b.velocity.y * 0 == 0);
            assert(advance(b.position.x, b.velocity.x, 0) == b.position.x);
            assert(advance(b.position.y, b.velocity.y, 0) == b.position.y);
        }
    }
}

/// A run started in a room with no negative half size has, after any number
/// of ticks, as many balls as the room's area in square units, rounded
/// down.
pub proof fn lemma_count_is_area(store: EntityStore, room: Room, toggle: bool, dts: Seq<u64>)
    requires
        freshly_spawned(store, room),
        room.half_x >= 0,
        room.half_y >= 0,
    ensures
        run(store.balls(), store.pending(), room, toggle, dts).0.len() == (2 * room.half_x) * (2
            * room.half_y) / (UNIT * UNIT),
{
    lemma_run_keeps_count(store.balls(), store.pending(), room, toggle, dts);
    if room.half_x == 0 || room.half_y == 0 {
        assert((2 * room.half_x) * (2 * room.half_y) == 0) by (nonlinear_arith)
            requires
                room.half_x == 0 || room.half_y == 0,
        ;
    }
}

} // verus!
