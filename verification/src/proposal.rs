//! A proposal: its snapshot of the voting rules, its tally, and the
//! status state machine driven by the threshold policy and the clock.
use vstd::prelude::*;

use crate::expiry::{spec_is_expired, BlockTime, Expiration};
use crate::threshold::{spec_evaluate, spec_threshold_valid, PolicyOutcome, Threshold};
use crate::votes::{spec_total, VoteTally};

verus! {

/// Where a proposal stands in its lifecycle.
#[derive(Clone, Copy, Debug, PartialEq, Eq, Structural)]
pub enum Status {
    /// Created, but voting has not begun. Unused in the direct-open design
    /// (proposals open immediately) but kept as a reachable state for
    /// variants with delayed opening.
    Pending,
    /// Open for voting.
    Open,
    /// Voting is over and it did not pass. Terminal.
    Rejected,
    /// Voting is over and it passed, but has not yet executed.
    Passed,
    /// It passed and its actions were dispatched. Terminal.
    Executed,
}

/// One attached action: an opaque payload this core never interprets,
/// handed back in order for the host's dispatcher on execution.
#[derive(Clone, Debug)]
pub struct Action {
    pub payload: Vec<u8>,
}

/// A proposal, owned exclusively by the engine. The threshold and the
/// total weight are snapshotted at creation time, so later registry or
/// configuration changes cannot reinterpret an open vote.
pub struct Proposal {
    /// Monotonically increasing, assigned by the engine, starting at 1.
    pub id: u64,
    pub title: String,
    pub description: String,
    /// Chain height when the proposal was created.
    pub start_height: u64,
    /// Voting ends at this point; votes at or past it are rejected.
    pub expires: Expiration,
    /// The attached actions, dispatched in this order on execution.
    pub actions: Vec<Action>,
    pub status: Status,
    /// Weight cast so far per option.
    pub votes: VoteTally,
    /// The threshold rule snapshotted at creation.
    pub threshold: Threshold,
    /// The registry's total weight snapshotted at creation.
    pub total_weight: u64,
}

impl Proposal {
    /// A proposal in good standing: its tally can only hold weight its
    /// snapshot allows, under a threshold its snapshot validates.
    pub open spec fn tally_wf(&self) -> bool {
        &&& spec_total(self.votes) <= self.total_weight
        &&& spec_threshold_valid(self.threshold, self.total_weight)
    }
}

/// The status a proposal projects at the given block, recomputed from the
/// tally, the snapshots and the clock alone — never from an ad hoc flag.
/// A decided (non-open) status is final for this projection; an open one
/// passes or fails with the policy, and an undecided tally past its
/// expiration is rejected.
pub open spec fn spec_current_status(p: Proposal, block: BlockTime) -> Status {
    if p.status != Status::Open {
        p.status
    } else {
        match spec_evaluate(p.votes, p.total_weight, p.threshold) {
            PolicyOutcome::Passed => Status::Passed,
            PolicyOutcome::Rejected => Status::Rejected,
            PolicyOutcome::Undecided => {
                if spec_is_expired(p.expires, block) {
                    Status::Rejected
                } else {
                    Status::Open
                }
            },
        }
    }
}

impl Proposal {
    /// Recompute the projected status without mutating anything: queries
    /// may call this against the current block freely.
    pub fn current_status(&self, block: &BlockTime) -> (r: Status)
        requires
            self.tally_wf(),
        ensures
            r == spec_current_status(*self, *block),
    {
        if !matches!(self.status, Status::Open) {
            return self.status;
        }
        match crate::threshold::evaluate(&self.votes, self.total_weight, &self.threshold) {
            PolicyOutcome::Passed => Status::Passed,
            PolicyOutcome::Rejected => Status::Rejected,
            PolicyOutcome::Undecided => {
                if self.expires.is_expired(block) {
                    Status::Rejected
                } else {
                    Status::Open
                }
            },
        }
    }

    /// Persist the recomputed status; everything else stays untouched.
    pub fn update_status(&mut self, block: &BlockTime)
        requires
            old(self).tally_wf(),
        ensures
            final(self).status == spec_current_status(*old(self), *block),
            *final(self) == (Proposal { status: final(self).status, ..*old(self) }),
    {
        let s = self.current_status(block);
        self.status = s;
    }
}

/// The projection is idempotent: with no intervening vote, the status
/// computed at two different times is identical unless the expiration
/// boundary lies between them.
pub proof fn lemma_status_projection_stable(p: Proposal, b1: BlockTime, b2: BlockTime)
    requires
        spec_is_expired(p.expires, b1) == spec_is_expired(p.expires, b2),
    ensures
        spec_current_status(p, b1) == spec_current_status(p, b2),
{
}

/// Projecting twice moves nothing further: once the status has been
/// recomputed and persisted at a block, recomputing at the same block
/// returns it, so a read path may recompute freely without writing.
pub proof fn lemma_status_projection_idempotent(p: Proposal, block: BlockTime)
    ensures
        spec_current_status(
            Proposal { status: spec_current_status(p, block), ..p },
            block,
        ) == spec_current_status(p, block),
{
}

/// Expiration only blocks future votes, never an already-decided outcome:
/// a passed proposal still projects `Passed` at any later block, expired
/// or not, so execution remains available to anyone.
pub proof fn lemma_passed_survives_expiration(p: Proposal, block: BlockTime)
    requires
        p.status == Status::Passed,
    ensures
        spec_current_status(p, block) == Status::Passed,
{
}

} // verus!
