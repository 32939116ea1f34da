//! The order in which one tick works through the school.
//!
//! Every agent steers by the school as the last tick left it. So a tick first
//! computes the new state of every agent and only then writes any of them
//! back: no agent ever sees a neighbour that has already moved.

use vstd::prelude::*;

verus! {

/// One unit of work of a tick. Agents are named by their index in the school.
#[derive(Clone, Copy, Debug, PartialEq, Eq, Structural)]
pub enum TickStep {
    /// Compute the agent's new position, velocity and acceleration from the
    /// school as it stands, and set them aside.
    Steer { agent: usize },
    /// Write back what was set aside for the agent.
    Commit { agent: usize },
}

impl TickStep {
    /// The agent that the step is about.
    pub open spec fn agent(self) -> int {
        match self {
            TickStep::Steer { agent } => agent as int,
            TickStep::Commit { agent } => agent as int,
        }
    }
}

/// Step `k` of a tick of a school of `n` agents.
pub open spec fn tick_step(n: int, k: int) -> TickStep {
    if k < n {
        TickStep::Steer { agent: k as usize }
    } else {
        TickStep::Commit { agent: (k - n) as usize }
    }
}

/// All steps of one tick of a school of `n` agents, in order: every agent
/// steers, in index order, then every agent commits, in index order.
pub open spec fn tick_steps(n: int) -> Seq<TickStep> {
    Seq::new((2 * n) as nat, |k: int| tick_step(n, k))
}

/// Lists the steps of one tick of a school of `n` agents.
pub fn tick_plan(n: usize) -> (plan: Vec<TickStep>)
    ensures
        plan@ == tick_steps(n as int),
{
    let mut plan: Vec<TickStep> = Vec::new();
    let mut agent: usize = 0;
    while agent < n
        invariant
            agent <= n,
            plan@ == Seq::new(agent as nat, |k: int| tick_step(n as int, k)),
        decreases n - agent,
    {
        plan.push(TickStep::Steer { agent });
        agent += 1;
    }
    let mut agent: usize = 0;
    while agent < n
        invariant
            agent <= n,
            plan@ == Seq::new((n + agent) as nat, |k: int| tick_step(n as int, k)),
        decreases n - agent,
    {
        plan.push(TickStep::Commit { agent });
        agent += 1;
    }
    assert(plan@ =~= tick_steps(n as int));
    plan
}

/// Every agent steers once and commits once, and it steers before any agent
/// commits: whatever an agent reads while it steers is the state that the
/// tick began with.
pub proof fn lemma_all_steer_before_any_commits(n: int, agent: int, other: int)
    requires
        0 <= n <= usize::MAX,
        0 <= agent < n,
        0 <= other < n,
    ensures
        tick_steps(n).len() == 2 * n,
        tick_steps(n)[agent] == (TickStep::Steer { agent: agent as usize }),
        tick_steps(n)[n + other] == (TickStep::Commit { agent: other as usize }),
        forall|k: int|
            0 <= k < 2 * n && (#[trigger] tick_steps(n)[k]) is Steer ==> k < n + other
                && (tick_steps(n)[k].agent() == agent ==> k == agent),
        forall|k: int|
            0 <= k < 2 * n && (#[trigger] tick_steps(n)[k]) is Commit && tick_steps(n)[k].agent()
                == other ==> k == n + other,
{
}

} // verus!
