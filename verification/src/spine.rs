//! The order in which one relaxation of a spine touches its points.
//!
//! A relaxation is three passes over a chain of `n` points, head first:
//!
//! 1. the constraining pass walks the joints `1..n`, pulling each to segment
//!    length from its predecessor and then, at every joint but the last,
//!    limiting the bend there by moving the following point;
//! 2. the wave pass displaces the last [`TAIL_POINTS`] points sideways, one
//!    after the other, each measured against its (already displaced)
//!    predecessor;
//! 3. the settling pass restores the segment lengths, joint by joint.
//!
//! Each pass is sequential: a step reads what the steps before it wrote.

use vstd::prelude::*;

verus! {

/// Number of trailing spine points that carry the swimming wave.
pub const TAIL_POINTS: usize = 15;

/// Fewest points a spine may have: the tail window, and one point ahead of it
/// from which the first tail point takes its direction.
pub const MIN_POINTS: usize = 16;

/// One elementary move of the solver. Points are named by their index in the
/// spine, the head being point 0.
#[derive(Clone, Copy, Debug, PartialEq, Eq, Structural)]
pub enum SpineStep {
    /// Put point `joint` at segment length from point `joint - 1`, keeping its
    /// direction as seen from there.
    Length { joint: usize },
    /// Limit the bend at point `joint`, between the points before and after
    /// it, by moving point `joint + 1`.
    Angle { joint: usize },
    /// Displace point `point` across the segment that arrives at it from
    /// point `point - 1`; `local` counts the tail points from 0.
    Wave { point: usize, local: usize },
}

impl SpineStep {
    /// The one point that the step may move.
    pub open spec fn moved(self) -> int {
        match self {
            SpineStep::Length { joint } => joint as int,
            SpineStep::Angle { joint } => joint + 1,
            SpineStep::Wave { point, .. } => point as int,
        }
    }

    /// The lowest point that the step reads.
    pub open spec fn first_read(self) -> int {
        match self {
            SpineStep::Length { joint } => joint - 1,
            SpineStep::Angle { joint } => joint - 1,
            SpineStep::Wave { point, .. } => point - 1,
        }
    }

    /// The highest point that the step reads.
    pub open spec fn last_read(self) -> int {
        match self {
            SpineStep::Length { joint } => joint as int,
            SpineStep::Angle { joint } => joint + 1,
            SpineStep::Wave { point, .. } => point as int,
        }
    }

    /// The step stays inside a spine of `n` points and leaves its head alone.
    pub open spec fn fits(self, n: int) -> bool {
        &&& 0 <= self.first_read()
        &&& self.last_read() < n
        &&& 1 <= self.moved() < n
    }
}

/// Number of steps in the constraining pass: a length step for each of the
/// `n - 1` joints and an angle step for each but the last.
pub open spec fn constrain_len(n: int) -> int {
    2 * n - 3
}

/// Step `k` of the constraining pass: joints in rising order, the length step
/// of a joint directly before its angle step.
pub open spec fn constrain_step(k: int) -> SpineStep {
    if k % 2 == 0 {
        SpineStep::Length { joint: (k / 2 + 1) as usize }
    } else {
        SpineStep::Angle { joint: (k / 2 + 1) as usize }
    }
}

/// Step `k` of the wave pass over a spine of `n` points.
pub open spec fn wave_step(n: int, k: int) -> SpineStep {
    SpineStep::Wave { point: (n - TAIL_POINTS + k) as usize, local: k as usize }
}

/// Step `k` of the settling pass.
pub open spec fn settle_step(k: int) -> SpineStep {
    SpineStep::Length { joint: (k + 1) as usize }
}

/// The constraining pass over a spine of `n` points.
pub open spec fn constrain_pass(n: int) -> Seq<SpineStep> {
    Seq::new(constrain_len(n) as nat, |k: int| constrain_step(k))
}

/// The wave pass: one step for each of the last [`TAIL_POINTS`] points,
/// nearest the head first.
pub open spec fn wave_pass(n: int) -> Seq<SpineStep> {
    Seq::new(TAIL_POINTS as nat, |k: int| wave_step(n, k))
}

/// The settling pass: one length step for each joint, nearest the head first.
pub open spec fn settle_pass(n: int) -> Seq<SpineStep> {
    Seq::new((n - 1) as nat, |k: int| settle_step(k))
}

/// All steps of one relaxation of a spine of `n` points, in order.
pub open spec fn relax_steps(n: int) -> Seq<SpineStep> {
    constrain_pass(n) + wave_pass(n) + settle_pass(n)
}

/// Where the settling pass handles `joint`, as a position in [`relax_steps`].
pub open spec fn settle_position(n: int, joint: int) -> int {
    constrain_len(n) + TAIL_POINTS + joint - 1
}

/// Where the constraining pass limits the bend at `joint`, as a position in
/// [`relax_steps`].
pub open spec fn angle_position(joint: int) -> int {
    2 * joint - 1
}

/// Lists the steps of one relaxation of a spine of `n` points.
///
/// The list depends on `n` alone, so one list serves every spine of that
/// length, tick after tick.
pub fn relax_plan(n: usize) -> (plan: Vec<SpineStep>)
    requires
        n >= MIN_POINTS,
    ensures
        plan@ == relax_steps(n as int),
{
    let mut plan: Vec<SpineStep> = Vec::new();
    let mut joint: usize = 1;
    while joint < n
        invariant
            n >= MIN_POINTS,
            1 <= joint <= n,
            joint < n ==> plan@.len() == 2 * (joint - 1),
            joint == n ==> plan@.len() == constrain_len(n as int),
            forall|k: int| 0 <= k < plan@.len() ==> plan@[k] == constrain_step(k),
        decreases n - joint,
    {
        plan.push(SpineStep::Length { joint });
        if joint < n - 1 {
            plan.push(SpineStep::Angle { joint });
        }
        joint += 1;
    }
    assert(plan@ =~= constrain_pass(n as int));
    let first_tail: usize = n - TAIL_POINTS;
    let mut local: usize = 0;
    while local < TAIL_POINTS
        invariant
            n >= MIN_POINTS,
            first_tail == n - TAIL_POINTS,
            local <= TAIL_POINTS,
            plan@ == constrain_pass(n as int) + Seq::new(
                local as nat,
                |k: int| wave_step(n as int, k),
            ),
        decreases TAIL_POINTS - local,
    {
        plan.push(SpineStep::Wave { point: first_tail + local, local });
        local += 1;
    }
    assert(plan@ =~= constrain_pass(n as int) + wave_pass(n as int));
    let mut joint: usize = 1;
    while joint < n
        invariant
            1 <= joint <= n,
            plan@ == constrain_pass(n as int) + wave_pass(n as int) + Seq::new(
                (joint - 1) as nat,
                |k: int| settle_step(k),
            ),
        decreases n - joint,
    {
        plan.push(SpineStep::Length { joint });
        joint += 1;
    }
    assert(plan@ =~= relax_steps(n as int));
    plan
}

/// A relaxation of `n` points takes `3 n + 11` steps, and each of them reads
/// and moves only points of the spine, and never moves the head.
pub proof fn lemma_relax_steps_fit(n: int)
    requires
        MIN_POINTS <= n <= usize::MAX,
    ensures
        relax_steps(n).len() == 3 * n + 11,
        forall|k: int| 0 <= k < relax_steps(n).len() ==> (#[trigger] relax_steps(n)[k]).fits(n),
{
    let steps = relax_steps(n);
    assert forall|k: int| 0 <= k < steps.len() implies (#[trigger] steps[k]).fits(n) by {
        if k < constrain_len(n) {
            assert(steps[k] == constrain_step(k));
        } else if k < constrain_len(n) + TAIL_POINTS {
            assert(steps[k] == wave_step(n, k - constrain_len(n)));
        } else {
            assert(steps[k] == settle_step(k - constrain_len(n) - TAIL_POINTS));
        }
    }
}

/// Every segment is left at its length: the settling pass pulls each joint to
/// segment length from its predecessor, and no step after that one moves
/// either end of the segment.
pub proof fn lemma_joint_settles(n: int, joint: int)
    requires
        MIN_POINTS <= n <= usize::MAX,
        1 <= joint < n,
    ensures
        0 <= settle_position(n, joint) < relax_steps(n).len(),
        relax_steps(n)[settle_position(n, joint)] == (SpineStep::Length { joint: joint as usize }),
        forall|m: int|
            settle_position(n, joint) < m < relax_steps(n).len() ==> {
                &&& (#[trigger] relax_steps(n)[m]).moved() != joint
                &&& relax_steps(n)[m].moved() != joint - 1
            },
{
    let steps = relax_steps(n);
    let at = settle_position(n, joint);
    assert(steps[at] == settle_step(joint - 1));
    assert forall|m: int| at < m < steps.len() implies {
        &&& (#[trigger] steps[m]).moved() != joint
        &&& steps[m].moved() != joint - 1
    } by {
        assert(steps[m] == settle_step(m - constrain_len(n) - TAIL_POINTS));
    }
}

/// A bend, once limited, outlasts the constraining pass: of the three points
/// that make the bend at an inner `joint`, the rest of that pass moves only
/// the last, and only by the length step of the next joint, which slides the
/// point along its direction from `joint`.
pub proof fn lemma_bend_outlasts_constraining(n: int, joint: int)
    requires
        MIN_POINTS <= n <= usize::MAX,
        1 <= joint < n - 1,
    ensures
        0 <= angle_position(joint) < constrain_len(n),
        relax_steps(n)[angle_position(joint)] == (SpineStep::Angle { joint: joint as usize }),
        forall|m: int|
            angle_position(joint) < m < constrain_len(n) ==> {
                &&& (#[trigger] relax_steps(n)[m]).moved() > joint
                &&& relax_steps(n)[m].moved() == joint + 1 ==> relax_steps(n)[m] == (
                SpineStep::Length { joint: (joint + 1) as usize })
            },
{
    let steps = relax_steps(n);
    let at = angle_position(joint);
    assert(steps[at] == constrain_step(at));
    assert forall|m: int| at < m < constrain_len(n) implies {
        &&& (#[trigger] steps[m]).moved() > joint
        &&& steps[m].moved() == joint + 1 ==> steps[m] == (SpineStep::Length {
            joint: (joint + 1) as usize,
        })
    } by {
        assert(steps[m] == constrain_step(m));
    }
}

/// The wave runs down the tail: wave step `local` moves point
/// `n - TAIL_POINTS + local` and measures it against the point before, which
/// is on the spine even for the first tail point; the wave steps before it
/// moved only points nearer the head.
pub proof fn lemma_wave_runs_down_the_tail(n: int, local: int)
    requires
        MIN_POINTS <= n <= usize::MAX,
        0 <= local < TAIL_POINTS,
    ensures
        relax_steps(n)[constrain_len(n) + local] == (SpineStep::Wave {
            point: (n - TAIL_POINTS + local) as usize,
            local: local as usize,
        }),
        relax_steps(n)[constrain_len(n) + local].first_read() >= 0,
        forall|m: int|
            constrain_len(n) <= m < constrain_len(n) + local ==> (#[trigger] relax_steps(
                n,
            )[m]).moved() < n - TAIL_POINTS + local,
{
    let steps = relax_steps(n);
    assert(steps[constrain_len(n) + local] == wave_step(n, local));
    assert forall|m: int| constrain_len(n) <= m < constrain_len(n) + local implies (
    #[trigger] steps[m]).moved() < n - TAIL_POINTS + local by {
        assert(steps[m] == wave_step(n, m - constrain_len(n)));
    }
}

} // verus!
