//! Which points of a spine feed each vertex of its outline.
//!
//! The outline of a fish is a ribbon around its spine: a left and a right
//! curve with one vertex each per spine point. The vertex at a point lies to
//! the side of the segment that arrives there (at the head: of the segment
//! that leaves), at the point's own width, turned by half the bend of the
//! spine at that point. Both ends of the spine count as straight, so their
//! offset stands square on the segment.

use vstd::prelude::*;

verus! {

/// Fewest points a spine must have to have an outline: one segment.
pub const MIN_OUTLINE_POINTS: usize = 2;

/// How far the segment's direction is turned to give the offset's direction.
#[derive(Clone, Copy, Debug, PartialEq, Eq, Structural)]
pub enum Turn {
    /// A quarter turn to the left, which is half of a straight bend: the
    /// offset of an end of the spine. The left curve lies on the left.
    Square,
    /// Half the signed bend between the segment and the point `next`. The
    /// sign of the bend also picks the side: where the bend is negative the
    /// left and the right curve change places.
    HalfBend { next: usize },
}

/// The recipe for one vertex pair of the outline.
#[derive(Clone, Copy, Debug, PartialEq, Eq, Structural)]
pub struct Station {
    /// The spine point that is offset, which also names the width to use.
    pub point: usize,
    /// Start of the segment that gives the direction.
    pub from: usize,
    /// End of that segment.
    pub to: usize,
    /// The turn applied to the direction.
    pub turn: Turn,
}

impl Station {
    /// The station names only points of a spine of `n` points, its segment
    /// joins neighbours, and the segment touches the point that is offset.
    pub open spec fn fits(self, n: int) -> bool {
        &&& 0 <= self.from
        &&& self.to == self.from + 1
        &&& self.to < n
        &&& (self.point == self.from || self.point == self.to)
        &&& (self.turn matches Turn::HalfBend { next } ==> self.point == self.to && next == self.to
            + 1 && next < n)
    }
}

/// The station of vertex `i` on a spine of `n` points.
pub open spec fn station(n: int, i: int) -> Station {
    if i == 0 {
        Station { point: 0, from: 0, to: 1, turn: Turn::Square }
    } else if i == n - 1 {
        Station { point: i as usize, from: (i - 1) as usize, to: i as usize, turn: Turn::Square }
    } else {
        Station {
            point: i as usize,
            from: (i - 1) as usize,
            to: i as usize,
            turn: Turn::HalfBend { next: (i + 1) as usize },
        }
    }
}

/// The stations of the outline of a spine of `n` points, head first.
pub open spec fn contour_stations(n: int) -> Seq<Station> {
    Seq::new(n as nat, |i: int| station(n, i))
}

/// Lists the stations of the outline of a spine of `n` points: one per spine
/// point, in spine order, so each of the two curves gets `n` vertices.
pub fn contour_plan(n: usize) -> (plan: Vec<Station>)
    requires
        n >= MIN_OUTLINE_POINTS,
    ensures
        plan@ == contour_stations(n as int),
        plan@.len() == n,
{
    let mut plan: Vec<Station> = Vec::new();
    plan.push(Station { point: 0, from: 0, to: 1, turn: Turn::Square });
    let mut i: usize = 1;
    while i < n - 1
        invariant
            n >= MIN_OUTLINE_POINTS,
            1 <= i <= n - 1,
            plan@ == Seq::new(i as nat, |k: int| station(n as int, k)),
        decreases n - i,
    {
        plan.push(Station { point: i, from: i - 1, to: i, turn: Turn::HalfBend { next: i + 1 } });
        i += 1;
    }
    plan.push(Station { point: i, from: i - 1, to: i, turn: Turn::Square });
    assert(plan@ =~= contour_stations(n as int));
    plan
}

/// Every station of an outline stays on the spine, is about the point whose
/// place in the list it has, and only the inner points are bent.
pub proof fn lemma_stations_fit(n: int, i: int)
    requires
        MIN_OUTLINE_POINTS <= n <= usize::MAX,
        0 <= i < n,
    ensures
        contour_stations(n)[i].fits(n),
        contour_stations(n)[i].point == i,
        contour_stations(n)[i].turn is HalfBend <==> 0 < i < n - 1,
{
}

} // verus!
