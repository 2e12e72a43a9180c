//! Vote options and the per-proposal weight tally.
use vstd::prelude::*;

verus! {

/// A voter's choice on a proposal.
#[derive(Clone, Copy, Debug, PartialEq, Eq, Structural)]
pub enum Vote {
    Yes,
    No,
    Abstain,
    Veto,
}

/// Weight cast so far per option. Each field only ever grows:
/// the single mutation is adding one ballot's weight to one option.
#[derive(Clone, Copy, Debug, PartialEq, Eq, Structural)]
pub struct VoteTally {
    pub yes: u64,
    pub no: u64,
    pub abstain: u64,
    pub veto: u64,
}

/// Total weight cast, over all options.
pub open spec fn spec_total(t: VoteTally) -> int {
    t.yes + t.no + t.abstain + t.veto
}

/// Weight cast on options that express an opinion (abstain excluded).
pub open spec fn spec_opinions(t: VoteTally) -> int {
    t.yes + t.no + t.veto
}

/// The tally after one more ballot of weight `w` for option `v`.
pub open spec fn spec_add_vote(t: VoteTally, v: Vote, w: u64) -> VoteTally {
    match v {
        Vote::Yes => VoteTally { yes: (t.yes + w) as u64, ..t },
        Vote::No => VoteTally { no: (t.no + w) as u64, ..t },
        Vote::Abstain => VoteTally { abstain: (t.abstain + w) as u64, ..t },
        Vote::Veto => VoteTally { veto: (t.veto + w) as u64, ..t },
    }
}

impl VoteTally {
    /// The tally of a proposal nobody has voted on.
    pub fn new() -> (t: VoteTally)
        ensures
            t == (VoteTally { yes: 0, no: 0, abstain: 0, veto: 0 }),
    {
        VoteTally { yes: 0, no: 0, abstain: 0, veto: 0 }
    }

    /// The tally right after the proposer's automatic yes ballot.
    pub fn from_yes(weight: u64) -> (t: VoteTally)
        ensures
            t == (VoteTally { yes: weight, no: 0, abstain: 0, veto: 0 }),
    {
        VoteTally { yes: weight, no: 0, abstain: 0, veto: 0 }
    }

    /// Record one more ballot. The caller guarantees the option's counter
    /// cannot overflow; the engine knows this because the summed ballot
    /// weights of a proposal never exceed its snapshotted total weight.
    pub fn add_vote(&mut self, vote: Vote, weight: u64)
        requires
            spec_total(*old(self)) + weight <= u64::MAX,
        ensures
            *final(self) == spec_add_vote(*old(self), vote, weight),
    {
        match vote {
            Vote::Yes => {
                self.yes = self.yes + weight;
            },
            Vote::No => {
                self.no = self.no + weight;
            },
            Vote::Abstain => {
                self.abstain = self.abstain + weight;
            },
            Vote::Veto => {
                self.veto = self.veto + weight;
            },
        }
    }

    /// Total weight cast, over all options.
    pub fn total(&self) -> (r: u64)
        requires
            spec_total(*self) <= u64::MAX,
        ensures
            r == spec_total(*self),
    {
        self.yes + self.no + self.abstain + self.veto
    }
}

/// Recording two ballots yields the same tally in either order: the
/// outcome of a proposal does not depend on vote arrival order.
pub proof fn lemma_add_vote_commutes(t: VoteTally, v1: Vote, w1: u64, v2: Vote, w2: u64)
    requires
        spec_total(t) + w1 + w2 <= u64::MAX,
    ensures
        spec_add_vote(spec_add_vote(t, v1, w1), v2, w2) == spec_add_vote(
            spec_add_vote(t, v2, w2),
            v1,
            w1,
        ),
{
}

} // verus!
