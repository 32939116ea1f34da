//! Which wall pushes an agent along one axis.
//!
//! The pond is a rectangle, and each axis has a low wall (at coordinate zero)
//! and a high wall (at the pond's extent). A wall pushes an agent inward once
//! the agent is nearer to it than the margin. The two axes are judged apart,
//! and along one axis at most one wall pushes.

use vstd::prelude::*;

verus! {

/// The wall that pushes along one axis.
#[derive(Clone, Copy, Debug, PartialEq, Eq, Structural)]
pub enum Push {
    /// No wall is near: no force along this axis.
    Free,
    /// The low wall pushes, towards rising coordinates.
    FromLow,
    /// The high wall pushes, towards falling coordinates.
    FromHigh,
}

/// The wall that pushes, given which walls are within the margin. Where the
/// margin is so wide that both are, the high wall wins.
pub open spec fn axis_push_spec(near_low: bool, near_high: bool) -> Push {
    if near_high {
        Push::FromHigh
    } else if near_low {
        Push::FromLow
    } else {
        Push::Free
    }
}

/// Picks the wall that pushes along an axis. `near_low` says that the
/// coordinate is below the margin, `near_high` that it is above the extent
/// less the margin.
pub fn axis_push(near_low: bool, near_high: bool) -> (push: Push)
    ensures
        push == axis_push_spec(near_low, near_high),
{
    if near_high {
        Push::FromHigh
    } else if near_low {
        Push::FromLow
    } else {
        Push::Free
    }
}

/// An axis is free of force exactly when neither wall is within the margin,
/// and an agent near one wall only is pushed by that wall.
pub proof fn lemma_push_comes_from_a_near_wall(near_low: bool, near_high: bool)
    ensures
        axis_push_spec(near_low, near_high) == Push::Free <==> !near_low && !near_high,
        near_low && !near_high ==> axis_push_spec(near_low, near_high) == Push::FromLow,
        near_high && !near_low ==> axis_push_spec(near_low, near_high) == Push::FromHigh,
{
}

} // verus!
