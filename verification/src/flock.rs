//! Which neighbours count towards which steering force.
//!
//! An agent looks at every other agent of the school, in index order. What it
//! measures of each is a [`Sighting`]; what the sighting is worth is an
//! [`Influence`]. Alignment and cohesion come from the neighbours that are in
//! sight and ahead; separation, independently, from those that crowd. An
//! agent is no neighbour of itself, whatever it measures.

use vstd::prelude::*;

verus! {

/// What one agent measured of another.
#[derive(Clone, Copy, Debug, PartialEq, Eq, Structural)]
pub struct Sighting {
    /// The other's head is nearer than the visual range.
    pub in_range: bool,
    /// The other's head lies in the half plane that the agent moves into.
    pub ahead: bool,
    /// The other's body centre is nearer than the minimum distance.
    pub crowded: bool,
}

/// What a sighting is worth to the agent that made it.
#[derive(Clone, Copy, Debug, PartialEq, Eq, Structural)]
pub struct Influence {
    /// The other counts towards alignment and cohesion.
    pub steers: bool,
    /// The other pushes the agent away, from its centre and from its head.
    pub repels: bool,
}

/// Agent `other` counts towards the alignment and cohesion of agent `me`.
pub open spec fn steers(me: int, other: int, sighting: Sighting) -> bool {
    other != me && sighting.in_range && sighting.ahead
}

/// Agent `other` pushes agent `me` away.
pub open spec fn repels(me: int, other: int, sighting: Sighting) -> bool {
    other != me && sighting.crowded
}

/// How many of the agents sighted so far, `seen[b]` being the sighting of
/// agent `b`, count towards the alignment and cohesion of agent `me`.
pub open spec fn steering_among(me: int, seen: Seq<Sighting>) -> nat
    decreases seen.len(),
{
    if seen.len() == 0 {
        0
    } else {
        steering_among(me, seen.drop_last()) + if steers(me, seen.len() - 1, seen.last()) {
            1nat
        } else {
            0nat
        }
    }
}

/// Weighs what agent `me` measured of agent `other`.
pub fn influence(me: usize, other: usize, sighting: Sighting) -> (worth: Influence)
    ensures
        worth.steers == steers(me as int, other as int, sighting),
        worth.repels == repels(me as int, other as int, sighting),
{
    let apart = other != me;
    Influence {
        steers: apart && sighting.in_range && sighting.ahead,
        repels: apart && sighting.crowded,
    }
}

/// One agent's pass over the school: it takes the sightings in index order,
/// says what each is worth, and keeps count of the neighbours that steer.
pub struct NeighbourScan {
    me: usize,
    next: usize,
    steering: usize,
    seen: Ghost<Seq<Sighting>>,
}

impl NeighbourScan {
    /// The scan's bookkeeping agrees with the sightings it took.
    #[verifier::type_invariant]
    spec fn consistent(&self) -> bool {
        &&& self.next == self.seen@.len()
        &&& self.steering == steering_among(self.me as int, self.seen@)
    }

    /// The agent that looks.
    pub closed spec fn me(&self) -> int {
        self.me as int
    }

    /// The sightings taken so far: `seen()[b]` is that of agent `b`.
    pub closed spec fn seen(&self) -> Seq<Sighting> {
        self.seen@
    }

    /// Starts the pass of agent `me`, with no agent sighted yet.
    pub fn new(me: usize) -> (scan: NeighbourScan)
        ensures
            scan.me() == me,
            scan.seen() == Seq::<Sighting>::empty(),
    {
        NeighbourScan { me, next: 0, steering: 0, seen: Ghost(Seq::empty()) }
    }

    /// Index of the agent whose sighting is due next.
    pub fn due(&self) -> (other: usize)
        ensures
            other == self.seen().len(),
    {
        proof {
            use_type_invariant(self);
        }
        self.next
    }

    /// Takes the sighting of the agent that is due and says what it is worth.
    pub fn observe(&mut self, sighting: Sighting) -> (worth: Influence)
        requires
            old(self).seen().len() < usize::MAX,
        ensures
            final(self).me() == old(self).me(),
            final(self).seen() == old(self).seen().push(sighting),
            worth.steers == steers(old(self).me(), old(self).seen().len() as int, sighting),
            worth.repels == repels(old(self).me(), old(self).seen().len() as int, sighting),
    {
        proof {
            use_type_invariant(&*self);
            lemma_steering_is_bounded(self.me as int, self.seen@);
            assert(self.seen@.push(sighting).drop_last() =~= self.seen@);
        }
        let worth = influence(self.me, self.next, sighting);
        let steering = if worth.steers {
            self.steering + 1
        } else {
            self.steering
        };
        *self = NeighbourScan {
            me: self.me,
            next: self.next + 1,
            steering,
            seen: Ghost(self.seen@.push(sighting)),
        };
        worth
    }

    /// Number of neighbours sighted so far that steer: the divisor of the
    /// means that alignment and cohesion are made of.
    pub fn steering(&self) -> (count: usize)
        ensures
            count == steering_among(self.me(), self.seen()),
    {
        proof {
            use_type_invariant(self);
        }
        self.steering
    }
}

/// At most every sighted agent steers, and the agent that looks never does:
/// once it has sighted itself, the count stays below the number of sightings.
pub proof fn lemma_steering_is_bounded(me: int, seen: Seq<Sighting>)
    ensures
        steering_among(me, seen) <= seen.len(),
        0 <= me < seen.len() ==> steering_among(me, seen) < seen.len(),
    decreases seen.len(),
{
    if seen.len() > 0 {
        lemma_steering_is_bounded(me, seen.drop_last());
    }
}

/// No neighbour steers exactly when none that was sighted is both in range
/// and ahead, the agent itself aside; then alignment and cohesion have no
/// mean to take and are zero.
pub proof fn lemma_no_steering(me: int, seen: Seq<Sighting>)
    ensures
        steering_among(me, seen) == 0 <==> forall|b: int|
            0 <= b < seen.len() ==> !steers(me, b, #[trigger] seen[b]),
    decreases seen.len(),
{
    if seen.len() > 0 {
        let front = seen.drop_last();
        lemma_no_steering(me, front);
        if steering_among(me, seen) == 0 {
            assert forall|b: int| 0 <= b < seen.len() implies !steers(me, b, #[trigger] seen[b]) by {
                if b < front.len() {
                    assert(front[b] == seen[b]);
                }
            }
        } else if steering_among(me, front) == 0 {
            assert(steers(me, seen.len() - 1, seen[seen.len() - 1]));
        } else {
            let b = choose|b: int| 0 <= b < front.len() && steers(me, b, #[trigger] front[b]);
            assert(seen[b] == front[b]);
        }
    }
}

} // verus!
