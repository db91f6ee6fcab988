//! A population of agents and the selection of its best member.
//!
//! Running an agent's game (scoring speculative states with its tree and
//! applying the best move) is floating-point work and lives with the
//! unverified driver; what is verified here is how a population is built and
//! how the best agent is picked.

use vstd::prelude::*;

use crate::genetic_ai::{depth, internal_count, leaf_count, node_wf, pow2, Agent, Method};

verus! {

/// A set of candidate agents, ranked by the fitness of their game runs.
pub struct Population {
    pub individuals: Vec<Agent>,
}

/// A freshly built agent: fitness 0 and a well-formed tree within the limit.
pub open spec fn fresh_agent(a: Agent, depth_limit: u32) -> bool {
    &&& a.fitness == 0
    &&& node_wf(a.gene.root)
    &&& depth(a.gene.root) <= depth_limit
}

/// An agent holding a complete tree of exactly the limit depth.
pub open spec fn full_agent(a: Agent, depth_limit: u32) -> bool {
    &&& depth(a.gene.root) == depth_limit
    &&& leaf_count(a.gene.root) == pow2(depth_limit as nat)
    &&& internal_count(a.gene.root) + 1 == pow2(depth_limit as nat)
}

/// The agent at position `i` is a best one, and the last among equals.
pub open spec fn best_at(s: Seq<Agent>, i: int) -> bool {
    &&& 0 <= i < s.len()
    &&& forall|j: int| 0 <= j < s.len() ==> (#[trigger] s[j]).fitness <= s[i].fitness
    &&& forall|j: int| i < j < s.len() ==> (#[trigger] s[j]).fitness < s[i].fitness
}

impl Population {
    /// `size` fresh agents of fitness 0: the first half built by the Grow
    /// strategy, the rest by the Full strategy, all within `depth_limit`.
    pub fn new(size: u32, depth_limit: u32) -> (r: Population)
        requires
            depth_limit >= 1,
        ensures
            r.individuals@.len() == size,
            forall|i: int|
                0 <= i < size ==> fresh_agent(#[trigger] r.individuals@[i], depth_limit),
            forall|i: int|
                size / 2 <= i < size ==> full_agent(#[trigger] r.individuals@[i], depth_limit),
    {
        let mut individuals: Vec<Agent> = Vec::new();
        let half = size / 2;
        for k in 0..half
            invariant
                depth_limit >= 1,
                individuals@.len() == k,
                forall|i: int|
                    0 <= i < k ==> fresh_agent(#[trigger] individuals@[i], depth_limit),
        {
            individuals.push(Agent::new(depth_limit, Method::Grow));
        }
        for k in half..size
            invariant
                depth_limit >= 1,
                half == size / 2,
                individuals@.len() == k,
                forall|i: int|
                    0 <= i < k ==> fresh_agent(#[trigger] individuals@[i], depth_limit),
                forall|i: int|
                    half <= i < k ==> full_agent(#[trigger] individuals@[i], depth_limit),
        {
            individuals.push(Agent::new(depth_limit, Method::Full));
        }
        Population { individuals }
    }

    /// The best agent of a non-empty population: no agent has a strictly
    /// greater fitness, and of several equally fit front-runners the last
    /// one is returned.
    pub fn return_best(&self) -> (r: &Agent)
        requires
            self.individuals@.len() >= 1,
        ensures
            exists|i: int|
                #[trigger] best_at(self.individuals@, i) && *r == self.individuals@[i],
    {
        let mut best: usize = 0;
        let n = self.individuals.len();
        for k in 1..n
            invariant
                n == self.individuals@.len(),
                best < k <= n,
                forall|j: int|
                    0 <= j < k ==> (#[trigger] self.individuals@[j]).fitness
                        <= self.individuals@[best as int].fitness,
                forall|j: int|
                    best < j < k ==> (#[trigger] self.individuals@[j]).fitness
                        < self.individuals@[best as int].fitness,
        {
            if self.individuals[k].fitness >= self.individuals[best].fitness {
                best = k;
            }
        }
        proof {
            assert(best_at(self.individuals@, best as int));
        }
        &self.individuals[best]
    }
}

} // verus!
