use vstd::prelude::*;
use crate::geometry::Room;
use crate::collision::{collides, separation, collision_check};
use crate::store::{Ball, MarkerChange, EntityStore, applied};
use crate::motion::{integrated, clamped_all, integrate, clamp_to_room};
use crate::spawn::{freshly_spawned, spawn_random};

verus! {

/// Whether ball `j` of `s` is a collision partner of ball `i`: another ball,
/// from `group` (every ball for `None`, else the balls whose marker is as
/// given), that collides with ball `i`.
pub open spec fn is_partner(s: Seq<Ball>, i: int, j: int, group: Option<bool>) -> bool {
    &&& 0 <= j < s.len()
    &&& j != i
    &&& match group {
        None => true,
        Some(m) => s[j].marked == m,
    }
    &&& collides(s[j].position, s[i].position)
}

/// The first partner of ball `i` at index `from` or later.
pub open spec fn first_partner_from(s: Seq<Ball>, i: int, group: Option<bool>, from: int) -> Option<int>
    decreases s.len() - from,
{
    if from >= s.len() {
        None
    } else if is_partner(s, i, from, group) {
        Some(from)
    } else {
        first_partner_from(s, i, group, from + 1)
    }
}

/// The first partner of ball `i` in index order: the only one it deflects.
pub open spec fn first_partner(s: Seq<Ball>, i: int, group: Option<bool>) -> Option<int> {
    first_partner_from(s, i, group, 0)
}

/// `s` after ball `i` deflected its first partner from `group`, if any: the
/// partner takes its offset from ball `i` as its velocity.
pub open spec fn deflected(s: Seq<Ball>, i: int, group: Option<bool>) -> Seq<Ball> {
    match first_partner(s, i, group) {
        Some(j) => s.update(j, s[j].with_velocity(separation(s[j].position, s[i].position))),
        None => s,
    }
}

/// `s` after balls `0..n`, in order, each deflected their first partner.
pub open spec fn scanned(s: Seq<Ball>, n: int) -> Seq<Ball>
    decreases n,
{
    if n <= 0 {
        s
    } else {
        deflected(scanned(s, n - 1), n - 1, None)
    }
}

/// Balls and queue after ball `i` met its first partner without the
/// marker (which is to get it) and its first partner with the marker (which
/// is to lose it).
pub open spec fn toggled(st: (Seq<Ball>, Seq<MarkerChange>), i: int) -> (Seq<Ball>, Seq<MarkerChange>) {
    let (s, q) = st;
    let (s1, q1) = match first_partner(s, i, Some(false)) {
        Some(j) => (deflected(s, i, Some(false)), q.push(MarkerChange::Add(j as usize))),
        None => (s, q),
    };
    match first_partner(s1, i, Some(true)) {
        Some(j) => (deflected(s1, i, Some(true)), q1.push(MarkerChange::Remove(j as usize))),
        None => (s1, q1),
    }
}

/// Balls and queue after the balls among `0..n` whose marker is `marked`
/// took their turn, in order.
pub open spec fn toggle_pass(st: (Seq<Ball>, Seq<MarkerChange>), marked: bool, n: int) -> (Seq<Ball>, Seq<MarkerChange>)
    decreases n,
{
    if n <= 0 {
        st
    } else {
        let prev = toggle_pass(st, marked, n - 1);
        if prev.0[n - 1].marked == marked {
            toggled(prev, n - 1)
        } else {
            prev
        }
    }
}

/// Balls and queue after the whole scan of the toggling mode: first the
/// balls without the marker, then those with it.
pub open spec fn toggle_scanned(s: Seq<Ball>, q: Seq<MarkerChange>) -> (Seq<Ball>, Seq<MarkerChange>) {
    toggle_pass(toggle_pass((s, q), false, s.len() as int), true, s.len() as int)
}

/// What [`first_partner_from`] finds is a partner, at `from` or later.
pub proof fn lemma_first_partner_from(s: Seq<Ball>, i: int, group: Option<bool>, from: int)
    ensures
        first_partner_from(s, i, group, from) matches Some(j) ==> from <= j && is_partner(s, i, j, group),
    decreases s.len() - from,
{
    if from < s.len() && !is_partner(s, i, from, group) {
        lemma_first_partner_from(s, i, group, from + 1);
    }
}

/// Finds the first partner of ball `i` from `group` and deflects it.
fn deflect_first(store: &mut EntityStore, i: usize, group: Option<bool>) -> (r: Option<usize>)
    requires
        i < old(store).balls().len(),
    ensures
        final(store).balls() == deflected(old(store).balls(), i as int, group),
        final(store).balls().len() == old(store).balls().len(),
        final(store).pending() == old(store).pending(),
        r matches Some(j) ==> first_partner(old(store).balls(), i as int, group) == Some(j as int),
        r is None ==> first_partner(old(store).balls(), i as int, group) is None,
{
    let ghost s = store.balls();
    proof {
        lemma_first_partner_from(s, i as int, group, 0);
    }
    let n = store.len();
    let pi = store.position(i);
    let mut j: usize = 0;
    while j < n
        invariant
            s == store.balls(),
            s == old(store).balls(),
            store.pending() == old(store).pending(),
            n == s.len(),
            i < n,
            j <= n,
            pi == s[i as int].position,
            first_partner(s, i as int, group) == first_partner_from(s, i as int, group, j as int),
        decreases n - j,
    {
        let in_group = match group {
            None => true,
            Some(m) => store.has_marker(j) == m,
        };
        if j != i && in_group {
            let pj = store.position(j);
            if let Some(v) = collision_check(&pj, &pi) {
                store.set_velocity(j, v);
                return Some(j);
            }
        }
        j = j + 1;
    }
    None
}

/// The scan of the plain mode: each ball in turn, in index order, deflects
/// the first other ball that collides with it, and only that one.
fn scan_all(store: &mut EntityStore)
    ensures
        final(store).balls() == scanned(old(store).balls(), old(store).balls().len() as int),
        final(store).pending() == old(store).pending(),
{
    let n = store.len();
    let mut i: usize = 0;
    while i < n
        invariant
            n == old(store).balls().len(),
            i <= n,
            store.balls() == scanned(old(store).balls(), i as int),
            store.balls().len() == n,
            store.pending() == old(store).pending(),
        decreases n - i,
    {
        deflect_first(store, i, None);
        i = i + 1;
    }
}

/// One turn of each ball whose marker is `marked`, in index order.
fn scan_toggling(store: &mut EntityStore, marked: bool)
    ensures
        (final(store).balls(), final(store).pending()) == toggle_pass(
            (old(store).balls(), old(store).pending()),
            marked,
            old(store).balls().len() as int,
        ),
        final(store).balls().len() == old(store).balls().len(),
{
    let n = store.len();
    let mut i: usize = 0;
    while i < n
        invariant
            n == old(store).balls().len(),
            i <= n,
            (store.balls(), store.pending()) == toggle_pass(
                (old(store).balls(), old(store).pending()),
                marked,
                i as int,
            ),
            store.balls().len() == n,
        decreases n - i,
    {
        if store.has_marker(i) == marked {
            if let Some(j) = deflect_first(store, i, Some(false)) {
                store.queue_add_marker(j);
            }
            if let Some(j) = deflect_first(store, i, Some(true)) {
                store.queue_remove_marker(j);
            }
        }
        i = i + 1;
    }
}

/// The collision step of the plain mode: brings the balls back into `room`,
/// then lets each ball in turn deflect its first partner.
pub fn check_collisions(store: &mut EntityStore, room: &Room)
    requires
        room.wf(),
    ensures
        final(store).balls() == scanned(
            clamped_all(old(store).balls(), *room),
            old(store).balls().len() as int,
        ),
        final(store).pending() == old(store).pending(),
{
    clamp_to_room(store, room);
    scan_all(store);
}

/// The collision step of the toggling mode: brings the balls back into
/// `room`, scans them (the balls without the marker first, then those with
/// it), each deflecting its first partner from either group and queueing a
/// marker for the one without and the loss of it for the one with, and
/// applies the queue only when the scan is over.
pub fn check_collisions_toggle(store: &mut EntityStore, room: &Room)
    requires
        room.wf(),
    ensures
        final(store).balls() == ({
            let st = toggle_scanned(clamped_all(old(store).balls(), *room), old(store).pending());
            applied(st.0, st.1)
        }),
        final(store).pending() == Seq::<MarkerChange>::empty(),
{
    clamp_to_room(store, room);
    scan_toggling(store, false);
    scan_toggling(store, true);
    store.apply_deferred();
}

/// Balls and queue after one tick of `dt` microseconds in `room`, in the
/// toggling mode when `toggle` holds and in the plain mode otherwise.
pub open spec fn ticked(
    s: Seq<Ball>,
    q: Seq<MarkerChange>,
    room: Room,
    toggle: bool,
    dt: u64,
) -> (Seq<Ball>, Seq<MarkerChange>) {
    let placed = clamped_all(integrated(s, dt), room);
    if toggle {
        let st = toggle_scanned(placed, q);
        (applied(st.0, st.1), Seq::empty())
    } else {
        (scanned(placed, s.len() as int), q)
    }
}

/// Balls and queue after one tick for each of `dts`, in order.
pub open spec fn run(
    s: Seq<Ball>,
    q: Seq<MarkerChange>,
    room: Room,
    toggle: bool,
    dts: Seq<u64>,
) -> (Seq<Ball>, Seq<MarkerChange>)
    decreases dts.len(),
{
    if dts.len() == 0 {
        (s, q)
    } else {
        let prev = run(s, q, room, toggle, dts.drop_last());
        ticked(prev.0, prev.1, room, toggle, dts.last())
    }
}

/// A run: its balls, its room, and the mode it was started in.
pub struct Simulation {
    pub store: EntityStore,
    pub room: Room,
    pub toggle: bool,
}

impl Simulation {
    /// A run in `room` with freshly spawned balls; see [`freshly_spawned`].
    pub fn new(room: Room, toggle: bool) -> (r: Simulation)
        ensures
            freshly_spawned(r.store, room),
            r.room == room,
            r.toggle == toggle,
    {
        Simulation { store: spawn_random(&room), room, toggle }
    }

    /// One tick: moves the balls for `dt` microseconds, then runs the
    /// collision step of the run's mode.
    pub fn tick(&mut self, dt: u64)
        requires
            old(self).room.wf(),
        ensures
            (final(self).store.balls(), final(self).store.pending()) == ticked(
                old(self).store.balls(),
                old(self).store.pending(),
                old(self).room,
                old(self).toggle,
                dt,
            ),
            final(self).room == old(self).room,
            final(self).toggle == old(self).toggle,
    {
        integrate(&mut self.store, dt);
        if self.toggle {
            check_collisions_toggle(&mut self.store, &self.room);
        } else {
            check_collisions(&mut self.store, &self.room);
        }
    }
}

} // verus!
