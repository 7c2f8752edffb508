use vstd::prelude::*;
use crate::geometry::{Position, Velocity};

verus! {

/// One ball: where it is, how it moves, and whether it carries the marker.
#[derive(Clone, Copy, Debug, PartialEq, Eq, Structural)]
pub struct Ball {
    pub position: Position,
    pub velocity: Velocity,
    pub marked: bool,
}

impl Ball {
    pub open spec fn with_position(self, p: Position) -> Ball {
        Ball { position: p, ..self }
    }

    pub open spec fn with_velocity(self, v: Velocity) -> Ball {
        Ball { velocity: v, ..self }
    }

    pub open spec fn with_marker(self, m: bool) -> Ball {
        Ball { marked: m, ..self }
    }
}

/// A marker change that waits for [`EntityStore::apply_deferred`].
#[derive(Clone, Copy, Debug, PartialEq, Eq, Structural)]
pub enum MarkerChange {
    Add(usize),
    Remove(usize),
}

impl MarkerChange {
    pub open spec fn target(self) -> usize {
        match self {
            MarkerChange::Add(id) => id,
            MarkerChange::Remove(id) => id,
        }
    }

    pub open spec fn adds(self) -> bool {
        self is Add
    }
}

/// Whether ball `id` carries the marker once `changes` are applied, in
/// order, to a ball that had it exactly when `marked`: the last change aimed
/// at `id` decides, and with none the marker stays as it was.
pub open spec fn marked_after(marked: bool, changes: Seq<MarkerChange>, id: int) -> bool
    decreases changes.len(),
{
    if changes.len() == 0 {
        marked
    } else if changes.last().target() == id {
        changes.last().adds()
    } else {
        marked_after(marked, changes.drop_last(), id)
    }
}

/// The balls of `s` once `changes` are applied to their markers.
pub open spec fn applied(s: Seq<Ball>, changes: Seq<MarkerChange>) -> Seq<Ball> {
    Seq::new(s.len(), |i: int| s[i].with_marker(marked_after(s[i].marked, changes, i)))
}

/// The balls of a run, named by their index, which never changes, with the
/// marker changes queued since the last [`EntityStore::apply_deferred`].
pub struct EntityStore {
    balls: Vec<Ball>,
    pending: Vec<MarkerChange>,
}

impl EntityStore {
    /// The balls, by index.
    pub closed spec fn balls(&self) -> Seq<Ball> {
        self.balls@
    }

    /// The queued marker changes, oldest first.
    pub closed spec fn pending(&self) -> Seq<MarkerChange> {
        self.pending@
    }

    /// A store with no balls.
    pub fn new() -> (r: EntityStore)
        ensures
            r.balls() == Seq::<Ball>::empty(),
            r.pending() == Seq::<MarkerChange>::empty(),
    {
        EntityStore { balls: Vec::new(), pending: Vec::new() }
    }

    /// A store that holds `balls`, in that order, with nothing queued.
    pub fn from_balls(balls: Vec<Ball>) -> (r: EntityStore)
        ensures
            r.balls() == balls@,
            r.pending() == Seq::<MarkerChange>::empty(),
    {
        EntityStore { balls, pending: Vec::new() }
    }

    /// Adds a ball without the marker and returns its index.
    pub fn spawn(&mut self, position: Position, velocity: Velocity) -> (id: usize)
        requires
            old(self).balls().len() < usize::MAX,
        ensures
            id == old(self).balls().len(),
            final(self).balls() == old(self).balls().push(
                Ball { position, velocity, marked: false },
            ),
            final(self).pending() == old(self).pending(),
    {
        let id = self.balls.len();
        self.balls.push(Ball { position, velocity, marked: false });
        id
    }

    /// The number of balls.
    pub fn len(&self) -> (r: usize)
        ensures
            r == self.balls().len(),
    {
        self.balls.len()
    }

    /// Ball `id`.
    pub fn ball(&self, id: usize) -> (r: Ball)
        requires
            id < self.balls().len(),
        ensures
            r == self.balls()[id as int],
    {
        self.balls[id]
    }

    /// The position of ball `id`.
    pub fn position(&self, id: usize) -> (r: Position)
        requires
            id < self.balls().len(),
        ensures
            r == self.balls()[id as int].position,
    {
        self.balls[id].position
    }

    /// The velocity of ball `id`.
    pub fn velocity(&self, id: usize) -> (r: Velocity)
        requires
            id < self.balls().len(),
        ensures
            r == self.balls()[id as int].velocity,
    {
        self.balls[id].velocity
    }

    /// Whether ball `id` carries the marker. Queued changes do not count
    /// until they are applied.
    pub fn has_marker(&self, id: usize) -> (r: bool)
        requires
            id < self.balls().len(),
        ensures
            r == self.balls()[id as int].marked,
    {
        self.balls[id].marked
    }

    /// Moves ball `id` to `p`.
    pub fn set_position(&mut self, id: usize, p: Position)
        requires
            id < old(self).balls().len(),
        ensures
            final(self).balls() == old(self).balls().update(
                id as int,
                old(self).balls()[id as int].with_position(p),
            ),
            final(self).pending() == old(self).pending(),
    {
        let mut b = self.balls[id];
        b.position = p;
        self.balls.set(id, b);
    }

    /// Gives ball `id` the velocity `v`.
    pub fn set_velocity(&mut self, id: usize, v: Velocity)
        requires
            id < old(self).balls().len(),
        ensures
            final(self).balls() == old(self).balls().update(
                id as int,
                old(self).balls()[id as int].with_velocity(v),
            ),
            final(self).pending() == old(self).pending(),
    {
        let mut b = self.balls[id];
        b.velocity = v;
        self.balls.set(id, b);
    }

    /// Queues giving ball `id` the marker; nothing changes until
    /// [`EntityStore::apply_deferred`].
    pub fn queue_add_marker(&mut self, id: usize)
        ensures
            final(self).balls() == old(self).balls(),
            final(self).pending() == old(self).pending().push(MarkerChange::Add(id)),
    {
        self.pending.push(MarkerChange::Add(id));
    }

    /// Queues taking the marker from ball `id`; nothing changes until
    /// [`EntityStore::apply_deferred`].
    pub fn queue_remove_marker(&mut self, id: usize)
        ensures
            final(self).balls() == old(self).balls(),
            final(self).pending() == old(self).pending().push(MarkerChange::Remove(id)),
    {
        self.pending.push(MarkerChange::Remove(id));
    }

    /// Applies the queued marker changes in the order they were queued, so
    /// that the last one aimed at a ball decides its marker, and empties the
    /// queue. A change aimed at an index with no ball is dropped.
    pub fn apply_deferred(&mut self)
        ensures
            final(self).balls() == applied(old(self).balls(), old(self).pending()),
            final(self).pending() == Seq::<MarkerChange>::empty(),
    {
        let ghost start = self.balls@;
        let n = self.pending.len();
        let mut k: usize = 0;
        while k < n
            invariant
                n == self.pending@.len(),
                self.pending@ == old(self).pending(),
                start == old(self).balls(),
                k <= n,
                self.balls@.len() == start.len(),
                forall|i: int|
                    0 <= i < start.len() ==> #[trigger] self.balls@[i] == start[i].with_marker(
                        marked_after(start[i].marked, self.pending@.take(k as int), i),
                    ),
            decreases n - k,
        {
            let change = self.pending[k];
            let (id, adds) = match change {
                MarkerChange::Add(id) => (id, true),
                MarkerChange::Remove(id) => (id, false),
            };
            if id < self.balls.len() {
                let mut b = self.balls[id];
                b.marked = adds;
                self.balls.set(id, b);
            }
            proof {
                let done = self.pending@.take(k as int + 1);
                assert(done.drop_last() == self.pending@.take(k as int));
                assert(done.last() == change);
            }
            k = k + 1;
        }
        assert(self.pending@.take(n as int) == self.pending@);
        assert(self.balls@ =~= applied(start, self.pending@));
        self.pending = Vec::new();
    }
}

} // verus!
