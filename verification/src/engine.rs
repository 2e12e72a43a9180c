//! The proposal engine: owns the proposal lifecycle, drives the threshold
//! policy and the ballot ledger, computes status transitions, and
//! authorizes dispatch of a passed proposal's actions.
//!
//! All state is explicit: one engine value holds the registry, the
//! configured rules, the proposals and their ballot books. Every operation
//! either commits completely or returns a named failure leaving the state
//! untouched.
use vstd::prelude::*;

use crate::ballots::{
    ballot_insert, ballots_match_registry, ballots_sorted, ballots_unique,
    lemma_ballots_bounded_by_registry, lemma_ballots_sorted_implies_unique,
    lemma_ballots_sum_insert, lemma_tally_insert, lemma_tally_total, spec_ballots_tally,
    spec_ballots_weight_sum, Ballot,
};
use crate::errors::ContractError;
use crate::expiry::{
    spec_after, spec_after_fits, spec_compare, spec_is_expired, BlockTime, Duration,
    Expiration, ExpirationOrder,
};
use crate::proposal::{spec_current_status, Action, Proposal, Status};
use crate::registry::{
    lemma_sorted_implies_unique, spec_weights_sum, voters_unique, Voter, VoterRegistry,
};
use crate::threshold::{spec_threshold_valid, Threshold};
use crate::votes::{spec_add_vote, Vote, VoteTally};

verus! {

/// The expiration a new proposal is given: the requested one, capped at
/// the maximum voting period's end; `None` when the request does not
/// order against the cap (mixed height and time units).
pub open spec fn spec_requested_expiration(
    latest: Option<Expiration>,
    max_expires: Expiration,
) -> Option<Expiration> {
    let requested = match latest {
        Some(e) => e,
        None => max_expires,
    };
    match spec_compare(requested, max_expires) {
        ExpirationOrder::After => Some(max_expires),
        ExpirationOrder::Incomparable => None,
        _ => Some(requested),
    }
}

/// A proposal right after one more ballot: the tally counts the new vote
/// and the status is recomputed from the new tally and the clock.
pub open spec fn spec_voted_proposal(p: Proposal, v: Vote, w: u64, block: BlockTime) -> Proposal {
    let voted = Proposal { votes: spec_add_vote(p.votes, v, w), ..p };
    Proposal { status: spec_current_status(voted, block), ..voted }
}

/// The weighted-voting governance engine.
pub struct ProposalEngine {
    /// Who may vote, at what weight. Immutable after instantiation.
    pub registry: VoterRegistry,
    /// The threshold rule; snapshotted into each new proposal.
    pub threshold: Threshold,
    /// Cap on how far a proposal's expiration may lie in the future.
    pub max_voting_period: Duration,
    /// All proposals; the one with id `i + 1` sits at index `i`.
    pub proposals: Vec<Proposal>,
    /// Ballot books; book `i` records the votes on proposal `i + 1`,
    /// ascending by voter address bytes.
    pub ballots: Vec<Vec<Ballot>>,
}

impl ProposalEngine {
    /// The engine's invariant: a well-formed registry, a threshold its
    /// total weight validates, and for every proposal a consistent
    /// snapshot, a sorted ballot book of registered voters, and a tally
    /// that is exactly what the book adds up to.
    pub open spec fn wf(&self) -> bool {
        &&& self.registry.wf()
        &&& spec_threshold_valid(self.threshold, self.registry.total)
        &&& self.proposals@.len() == self.ballots@.len()
        &&& forall|i: int|
            #![trigger self.proposals@[i]]
            #![trigger self.ballots@[i]]
            0 <= i < self.proposals@.len() ==> {
                let p = self.proposals@[i];
                let bk = self.ballots@[i]@;
                &&& p.id == i + 1
                &&& p.total_weight == self.registry.total
                &&& p.threshold == self.threshold
                &&& p.tally_wf()
                &&& p.votes == spec_ballots_tally(bk)
                &&& ballots_sorted(bk)
                &&& ballots_match_registry(bk, self.registry.voters@)
            }
    }

    /// A proposal id the engine knows.
    pub open spec fn spec_valid_pid(&self, proposal_id: u64) -> bool {
        1 <= proposal_id <= self.proposals@.len()
    }

    /// The ballot book of a known proposal.
    pub open spec fn spec_book(&self, proposal_id: u64) -> Seq<Ballot> {
        self.ballots@[proposal_id - 1]@
    }

    /// Whether this voter has already cast a ballot on this proposal.
    pub open spec fn spec_has_ballot(&self, proposal_id: u64, addr: Seq<char>) -> bool {
        exists|k: int|
            0 <= k < self.spec_book(proposal_id).len() && (#[trigger] self.spec_book(
                proposal_id,
            )[k].voter@) == addr
    }

    /// The registry, the rules and every other proposal are untouched;
    /// only the given proposal's row and book changed.
    pub open spec fn spec_frame(&self, pre: &ProposalEngine, idx: int) -> bool {
        &&& self.registry == pre.registry
        &&& self.threshold == pre.threshold
        &&& self.max_voting_period == pre.max_voting_period
        &&& self.proposals@.len() == pre.proposals@.len()
        &&& self.ballots@.len() == pre.ballots@.len()
        &&& forall|j: int|
            0 <= j < pre.proposals@.len() && j != idx ==> (#[trigger] self.proposals@[j])
                == pre.proposals@[j]
        &&& forall|j: int|
            0 <= j < pre.ballots@.len() && j != idx ==> (#[trigger] self.ballots@[j])
                == pre.ballots@[j]
    }

    /// Instantiate the engine: build the registry from the caller-supplied
    /// voter list, then validate the threshold against its total weight.
    pub fn new(voters: Vec<Voter>, threshold: Threshold, max_voting_period: Duration) -> (r:
        Result<ProposalEngine, ContractError>)
        requires
            voters_unique(voters@),
            spec_weights_sum(voters@) <= u64::MAX,
            voters@.len() > 0 ==> spec_weights_sum(voters@) > 0,
        ensures
            match r {
                Ok(e) => {
                    &&& e.wf()
                    &&& voters@.len() > 0
                    &&& spec_threshold_valid(threshold, e.registry.total)
                    &&& e.registry.total as int == spec_weights_sum(voters@)
                    &&& e.registry.voters@.to_multiset() == voters@.to_multiset()
                    &&& e.threshold == threshold
                    &&& e.max_voting_period == max_voting_period
                    &&& e.proposals@.len() == 0
                    &&& e.ballots@.len() == 0
                },
                Err(e) => {
                    &&& (e == ContractError::NoVoters <==> voters@.len() == 0)
                    &&& (voters@.len() > 0 ==> (e == ContractError::ZeroWeight || e
                        == ContractError::UnreachableWeight) && !spec_threshold_valid(
                        threshold,
                        spec_weights_sum(voters@) as u64,
                    ))
                },
            },
    {
        let registry = match VoterRegistry::new(voters) {
            Ok(reg) => reg,
            Err(e) => {
                return Err(e);
            },
        };
        match threshold.validate(registry.total) {
            Ok(_) => {},
            Err(e) => {
                return Err(e);
            },
        }
        Ok(
            ProposalEngine {
                registry,
                threshold,
                max_voting_period,
                proposals: Vec::new(),
                ballots: Vec::new(),
            },
        )
    }

    /// Create a proposal. Only a registered voter with positive weight may
    /// propose; the expiration is the requested one capped at the voting
    /// period's end, and mixed height/time units are rejected. The
    /// proposer's full weight is recorded at once as an automatic yes
    /// ballot, and the status is evaluated immediately: a proposer whose
    /// weight alone satisfies the threshold opens an already-passed
    /// proposal.
    pub fn propose(
        &mut self,
        proposer: &str,
        title: String,
        description: String,
        actions: Vec<Action>,
        latest: Option<Expiration>,
        block: &BlockTime,
    ) -> (r: Result<u64, ContractError>)
        requires
            old(self).wf(),
            spec_after_fits(old(self).max_voting_period, *block),
            old(self).proposals@.len() < usize::MAX,
        ensures
            final(self).wf(),
            match r {
                Ok(id) => {
                    &&& old(self).registry.spec_weight_of(proposer@) matches Some(wt) && wt >= 1
                        && ({
                        let max_expires = spec_after(old(self).max_voting_period, *block);
                        let exp = spec_requested_expiration(latest, max_expires);
                        &&& exp is Some
                        &&& id == old(self).proposals@.len() + 1
                        &&& ({
                            let p0 = (Proposal {
                                id,
                                title,
                                description,
                                start_height: block.height,
                                expires: exp->0,
                                actions,
                                status: Status::Open,
                                votes: (VoteTally { yes: wt, no: 0, abstain: 0, veto: 0 }),
                                threshold: old(self).threshold,
                                total_weight: old(self).registry.total,
                            });
                            let p1 = (Proposal {
                                status: spec_current_status(p0, *block),
                                ..p0
                            });
                            &&& final(self).proposals@ == old(self).proposals@.push(p1)
                        })
                        &&& final(self).ballots@.len() == old(self).ballots@.len() + 1
                        &&& ({
                            let bk = final(self).ballots@[id - 1]@;
                            &&& bk.len() == 1
                            &&& bk[0].voter@ == proposer@
                            &&& bk[0].weight == wt
                            &&& bk[0].vote == Vote::Yes
                        })
                        &&& forall|j: int|
                            0 <= j < old(self).ballots@.len()
                                ==> (#[trigger] final(self).ballots@[j])
                                == old(self).ballots@[j]
                        &&& final(self).registry == old(self).registry
                        &&& final(self).threshold == old(self).threshold
                        &&& final(self).max_voting_period == old(self).max_voting_period
                    })
                },
                Err(e) => {
                    &&& *final(self) == *old(self)
                    &&& ({
                        let w = old(self).registry.spec_weight_of(proposer@);
                        if w is None || w->0 == 0 {
                            e == ContractError::Unauthorized
                        } else {
                            e == ContractError::WrongExpiration && spec_requested_expiration(
                                latest,
                                spec_after(old(self).max_voting_period, *block),
                            ) is None
                        }
                    })
                },
            },
    {
        proof {
            lemma_sorted_implies_unique(self.registry.voters@);
        }
        let w = match self.registry.weight_of(proposer) {
            Some(p) => p,
            None => {
                return Err(ContractError::Unauthorized);
            },
        };
        if w == 0 {
            return Err(ContractError::Unauthorized);
        }
        let max_expires = self.max_voting_period.after(block);
        let mut expires = match latest {
            Some(e) => e,
            None => max_expires,
        };
        match expires.compare(&max_expires) {
            ExpirationOrder::After => {
                expires = max_expires;
            },
            ExpirationOrder::Incomparable => {
                return Err(ContractError::WrongExpiration);
            },
            _ => {},
        }
        let id = self.proposals.len() + 1;
        let mut prop = Proposal {
            id: id as u64,
            title,
            description,
            start_height: block.height,
            expires,
            actions,
            status: Status::Open,
            votes: VoteTally::from_yes(w),
            threshold: self.threshold,
            total_weight: self.registry.total,
        };
        proof {
            self.registry.lemma_weight_le_total(proposer@);
        }
        prop.update_status(block);
        let ghost p1 = prop;
        self.proposals.push(prop);
        let mut book: Vec<Ballot> = Vec::new();
        book.push(Ballot { voter: proposer.to_owned(), weight: w, vote: Vote::Yes });
        self.ballots.push(book);
        proof {
            let n = old(self).proposals@.len() as int;
            let bk = self.ballots@[n]@;
            assert(bk.len() == 1);
            assert(bk.drop_last() =~= Seq::<Ballot>::empty());
            assert(bk.last() == bk[0]);
            assert(bk[0].weight == w);
            assert(bk[0].vote == Vote::Yes);
            assert(bk[0].voter@ == proposer@);
            assert(spec_ballots_tally(bk.drop_last()) == (VoteTally {
                yes: 0,
                no: 0,
                abstain: 0,
                veto: 0,
            }));
            assert(spec_ballots_tally(bk) == spec_add_vote(
                VoteTally { yes: 0, no: 0, abstain: 0, veto: 0 },
                Vote::Yes,
                w,
            ));
            assert forall|i: int|
                #![trigger self.proposals@[i]]
                #![trigger self.ballots@[i]]
                0 <= i < self.proposals@.len() implies {
                let p = self.proposals@[i];
                let b = self.ballots@[i]@;
                &&& p.id == i + 1
                &&& p.total_weight == self.registry.total
                &&& p.threshold == self.threshold
                &&& p.tally_wf()
                &&& p.votes == spec_ballots_tally(b)
                &&& ballots_sorted(b)
                &&& ballots_match_registry(b, self.registry.voters@)
            } by {
                if i < n {
                    assert(self.proposals@[i] == old(self).proposals@[i]);
                    assert(self.ballots@[i] == old(self).ballots@[i]);
                } else {
                    assert(self.proposals@[i] == p1);
                    assert(ballots_match_registry(bk, self.registry.voters@));
                }
            }
        }
        Ok(id as u64)
    }

    /// Cast a vote. Only a registered voter with positive weight may vote,
    /// only on an existing, open, unexpired proposal, and only once: a
    /// second ballot for the same pair fails `AlreadyVoted` and leaves the
    /// tally untouched. On success the ballot is recorded at the voter's
    /// registered weight, the tally grows by exactly that ballot, and the
    /// status is re-evaluated and persisted. Returns the new status.
    pub fn vote(&mut self, voter: &str, proposal_id: u64, vote: Vote, block: &BlockTime) -> (r:
        Result<Status, ContractError>)
        requires
            old(self).wf(),
        ensures
            final(self).wf(),
            match r {
                Ok(st) => {
                    &&& old(self).registry.spec_weight_of(voter@) matches Some(wt) && wt >= 1 && ({
                        let idx = proposal_id - 1;
                        let oldp = old(self).proposals@[idx];
                        let p2 = spec_voted_proposal(oldp, vote, wt, *block);
                        &&& old(self).spec_valid_pid(proposal_id)
                        &&& oldp.status == Status::Open
                        &&& !spec_is_expired(oldp.expires, *block)
                        &&& !old(self).spec_has_ballot(proposal_id, voter@)
                        &&& final(self).proposals@ == old(self).proposals@.update(idx, p2)
                        &&& st == p2.status
                        &&& final(self).spec_frame(old(self), idx)
                        &&& final(self).spec_book(proposal_id).len() == old(self).spec_book(
                            proposal_id,
                        ).len() + 1
                        &&& final(self).spec_has_ballot(proposal_id, voter@)
                        &&& exists|b: Ballot|
                            b.voter@ == voter@ && b.weight == wt && b.vote == vote && final(self).spec_book(proposal_id).to_multiset() == old(self).spec_book(
                                proposal_id,
                            ).to_multiset().insert(b)
                    })
                },
                Err(e) => {
                    &&& *final(self) == *old(self)
                    &&& ({
                        let w = old(self).registry.spec_weight_of(voter@);
                        if w is None || w->0 == 0 {
                            e == ContractError::Unauthorized
                        } else if !old(self).spec_valid_pid(proposal_id) {
                            e == ContractError::NotFound
                        } else if old(self).proposals@[proposal_id - 1].status != Status::Open {
                            e == ContractError::NotOpen
                        } else if spec_is_expired(
                            old(self).proposals@[proposal_id - 1].expires,
                            *block,
                        ) {
                            e == ContractError::Expired
                        } else {
                            e == ContractError::AlreadyVoted && old(self).spec_has_ballot(
                                proposal_id,
                                voter@,
                            )
                        }
                    })
                },
            },
    {
        proof {
            lemma_sorted_implies_unique(self.registry.voters@);
        }
        let w = match self.registry.weight_of(voter) {
            Some(p) => p,
            None => {
                return Err(ContractError::Unauthorized);
            },
        };
        if w == 0 {
            return Err(ContractError::Unauthorized);
        }
        if proposal_id == 0 || proposal_id > self.proposals.len() as u64 {
            return Err(ContractError::NotFound);
        }
        let idx = (proposal_id - 1) as usize;
        if !matches!(self.proposals[idx].status, Status::Open) {
            return Err(ContractError::NotOpen);
        }
        if self.proposals[idx].expires.is_expired(block) {
            return Err(ContractError::Expired);
        }
        if crate::ballots::ballot_find(&self.ballots[idx], voter).is_some() {
            return Err(ContractError::AlreadyVoted);
        }
        let ghost pre = *self;
        let b = Ballot { voter: voter.to_owned(), weight: w, vote };
        let mut book = self.ballots.remove(idx);
        let ghost book0 = book@;
        let pos = match ballot_insert(&mut book, b) {
            Some(pos) => pos,
            None => {
                // Unreachable: the book was just checked to hold no ballot
                // for this voter.
                proof {
                    assert(false);
                }
                self.ballots.insert(idx, book);
                return Err(ContractError::AlreadyVoted);
            },
        };
        proof {
            // The grown book still holds one ballot per registered voter,
            // so its weights still fit under the registry total; that is
            // what lets the tally counter grow without overflow.
            let book1 = book@;
            assert(book1 == book0.insert(pos as int, b));
            book0.insert_ensures(pos as int, b);
            assert(ballots_match_registry(book1, self.registry.voters@)) by {
                assert forall|i: int| #![trigger book1[i]] 0 <= i < book1.len() implies exists|
                    j: int,
                |
                    0 <= j < self.registry.voters@.len() && (#[trigger] self.registry.voters@[j]).addr@
                        == book1[i].voter@ && self.registry.voters@[j].weight
                        == book1[i].weight by {
                    if i < pos {
                        assert(book1[i] == book0[i]);
                    } else if i == pos {
                        assert(book1[i] == b);
                        assert(self.registry.spec_weight_of(voter@) == Some(w));
                        let j0 = self.registry.spec_index_of(voter@);
                        assert(0 <= j0 < self.registry.voters@.len()
                            && self.registry.voters@[j0].addr@ == b.voter@
                            && self.registry.voters@[j0].weight == w);
                    } else {
                        assert(book1[i] == book0[i - 1]);
                    }
                }
            }
            lemma_ballots_sorted_implies_unique(book1);
            lemma_ballots_bounded_by_registry(book1, self.registry.voters@);
            lemma_ballots_sum_insert(book0, pos as int, b);
            lemma_tally_total(book0);
            lemma_tally_insert(book0, pos as int, b);
        }
        let mut prop = self.proposals.remove(idx);
        prop.votes.add_vote(vote, w);
        prop.update_status(block);
        let st = prop.status;
        self.proposals.insert(idx, prop);
        self.ballots.insert(idx, book);
        proof {
            let i0 = idx as int;
            let p2 = spec_voted_proposal(pre.proposals@[i0], vote, w, *block);
            assert(self.proposals@ =~= pre.proposals@.update(i0, p2));
            assert(self.ballots@ =~= pre.ballots@.update(i0, book));
            crate::seqfacts::lemma_to_multiset_insert(book0, pos as int, b);
            assert(self.spec_has_ballot(proposal_id, voter@)) by {
                assert(self.spec_book(proposal_id)[pos as int].voter@ == voter@);
            }
            assert forall|i: int|
                #![trigger self.proposals@[i]]
                #![trigger self.ballots@[i]]
                0 <= i < self.proposals@.len() implies {
                let p = self.proposals@[i];
                let bk = self.ballots@[i]@;
                &&& p.id == i + 1
                &&& p.total_weight == self.registry.total
                &&& p.threshold == self.threshold
                &&& p.tally_wf()
                &&& p.votes == spec_ballots_tally(bk)
                &&& ballots_sorted(bk)
                &&& ballots_match_registry(bk, self.registry.voters@)
            } by {
                if i != i0 {
                    assert(self.proposals@[i] == pre.proposals@[i]);
                    assert(self.ballots@[i] == pre.ballots@[i]);
                }
            }
        }
        Ok(st)
    }

    /// Execute a passed proposal: callable by anyone, and by design also
    /// after the expiration — expiry only blocks future votes, never the
    /// dispatch of an already-decided outcome. The status flips to
    /// `Executed` in the same step that hands the actions out, so a
    /// retried call fails `WrongExecuteStatus`.
    pub fn execute(&mut self, proposal_id: u64) -> (r: Result<Vec<Action>, ContractError>)
        requires
            old(self).wf(),
        ensures
            final(self).wf(),
            match r {
                Ok(acts) => {
                    let idx = proposal_id - 1;
                    let oldp = old(self).proposals@[idx];
                    &&& old(self).spec_valid_pid(proposal_id)
                    &&& oldp.status == Status::Passed
                    &&& final(self).proposals@ == old(self).proposals@.update(
                        idx,
                        Proposal { status: Status::Executed, ..oldp },
                    )
                    &&& final(self).ballots@ == old(self).ballots@
                    &&& final(self).spec_frame(old(self), idx)
                    &&& acts@.len() == oldp.actions@.len()
                    &&& forall|k: int|
                        0 <= k < acts@.len() ==> (#[trigger] acts@[k].payload@)
                            == oldp.actions@[k].payload@
                },
                Err(e) => {
                    &&& *final(self) == *old(self)
                    &&& if !old(self).spec_valid_pid(proposal_id) {
                        e == ContractError::NotFound
                    } else {
                        e == ContractError::WrongExecuteStatus && old(self).proposals@[proposal_id
                            - 1].status != Status::Passed
                    }
                },
            },
    {
        if proposal_id == 0 || proposal_id > self.proposals.len() as u64 {
            return Err(ContractError::NotFound);
        }
        let idx = (proposal_id - 1) as usize;
        if !matches!(self.proposals[idx].status, Status::Passed) {
            return Err(ContractError::WrongExecuteStatus);
        }
        let ghost pre = *self;
        let mut prop = self.proposals.remove(idx);
        prop.status = Status::Executed;
        // Hand out a copy of the attached actions for dispatch.
        let mut acts: Vec<Action> = Vec::new();
        let n = prop.actions.len();
        let mut k: usize = 0;
        while k < n
            invariant
                0 <= k <= n,
                n == prop.actions@.len(),
                acts@.len() == k,
                forall|m: int|
                    0 <= m < k ==> (#[trigger] acts@[m].payload@) == prop.actions@[m].payload@,
            decreases n - k,
        {
            acts.push(Action { payload: prop.actions[k].payload.clone() });
            k = k + 1;
        }
        self.proposals.insert(idx, prop);
        proof {
            let i0 = idx as int;
            assert(self.proposals@ =~= pre.proposals@.update(
                i0,
                Proposal { status: Status::Executed, ..pre.proposals@[i0] },
            ));
            assert forall|i: int|
                #![trigger self.proposals@[i]]
                #![trigger self.ballots@[i]]
                0 <= i < self.proposals@.len() implies {
                let p = self.proposals@[i];
                let bk = self.ballots@[i]@;
                &&& p.id == i + 1
                &&& p.total_weight == self.registry.total
                &&& p.threshold == self.threshold
                &&& p.tally_wf()
                &&& p.votes == spec_ballots_tally(bk)
                &&& ballots_sorted(bk)
                &&& ballots_match_registry(bk, self.registry.voters@)
            } by {
                if i != i0 {
                    assert(self.proposals@[i] == pre.proposals@[i]);
                }
                assert(self.ballots@[i] == pre.ballots@[i]);
            }
        }
        Ok(acts)
    }

    /// Close a timed-out proposal: callable by anyone. A completed, passed
    /// or already-rejected proposal cannot be closed, and an unexpired one
    /// must be left to its voters; otherwise the status is forced to
    /// `Rejected`, freeing the proposal from further voting.
    pub fn close(&mut self, proposal_id: u64, block: &BlockTime) -> (r: Result<
        (),
        ContractError,
    >)
        requires
            old(self).wf(),
        ensures
            final(self).wf(),
            match r {
                Ok(_) => {
                    let idx = proposal_id - 1;
                    let oldp = old(self).proposals@[idx];
                    &&& old(self).spec_valid_pid(proposal_id)
                    &&& oldp.status != Status::Executed && oldp.status != Status::Rejected
                        && oldp.status != Status::Passed
                    &&& spec_is_expired(oldp.expires, *block)
                    &&& final(self).proposals@ == old(self).proposals@.update(
                        idx,
                        Proposal { status: Status::Rejected, ..oldp },
                    )
                    &&& final(self).ballots@ == old(self).ballots@
                    &&& final(self).spec_frame(old(self), idx)
                },
                Err(e) => {
                    &&& *final(self) == *old(self)
                    &&& if !old(self).spec_valid_pid(proposal_id) {
                        e == ContractError::NotFound
                    } else {
                        let st = old(self).proposals@[proposal_id - 1].status;
                        if st == Status::Executed || st == Status::Rejected || st
                            == Status::Passed {
                            e == ContractError::WrongCloseStatus
                        } else {
                            e == ContractError::NotExpired && !spec_is_expired(
                                old(self).proposals@[proposal_id - 1].expires,
                                *block,
                            )
                        }
                    }
                },
            },
    {
        if proposal_id == 0 || proposal_id > self.proposals.len() as u64 {
            return Err(ContractError::NotFound);
        }
        let idx = (proposal_id - 1) as usize;
        if matches!(self.proposals[idx].status, Status::Executed)
            || matches!(self.proposals[idx].status, Status::Rejected)
            || matches!(self.proposals[idx].status, Status::Passed) {
            return Err(ContractError::WrongCloseStatus);
        }
        if !self.proposals[idx].expires.is_expired(block) {
            return Err(ContractError::NotExpired);
        }
        let ghost pre = *self;
        let mut prop = self.proposals.remove(idx);
        prop.status = Status::Rejected;
        self.proposals.insert(idx, prop);
        proof {
            let i0 = idx as int;
            assert(self.proposals@ =~= pre.proposals@.update(
                i0,
                Proposal { status: Status::Rejected, ..pre.proposals@[i0] },
            ));
            assert forall|i: int|
                #![trigger self.proposals@[i]]
                #![trigger self.ballots@[i]]
                0 <= i < self.proposals@.len() implies {
                let p = self.proposals@[i];
                let bk = self.ballots@[i]@;
                &&& p.id == i + 1
                &&& p.total_weight == self.registry.total
                &&& p.threshold == self.threshold
                &&& p.tally_wf()
                &&& p.votes == spec_ballots_tally(bk)
                &&& ballots_sorted(bk)
                &&& ballots_match_registry(bk, self.registry.voters@)
            } by {
                if i != i0 {
                    assert(self.proposals@[i] == pre.proposals@[i]);
                }
                assert(self.ballots@[i] == pre.ballots@[i]);
            }
        }
        Ok(())
    }
}

/// In a well-formed engine, a proposal's ballot book holds at most one
/// ballot per voter.
pub proof fn lemma_one_ballot_per_voter(e: &ProposalEngine, proposal_id: u64)
    requires
        e.wf(),
        e.spec_valid_pid(proposal_id),
    ensures
        ballots_unique(e.spec_book(proposal_id)),
{
    lemma_ballots_sorted_implies_unique(e.spec_book(proposal_id));
}

/// The sum of all cast ballot weights for a proposal never exceeds the
/// total weight snapshotted at its creation.
pub proof fn lemma_cast_weight_bounded(e: &ProposalEngine, proposal_id: u64)
    requires
        e.wf(),
        e.spec_valid_pid(proposal_id),
    ensures
        spec_ballots_weight_sum(e.spec_book(proposal_id)) <= e.proposals@[proposal_id
            - 1].total_weight,
{
    let bk = e.spec_book(proposal_id);
    lemma_ballots_sorted_implies_unique(bk);
    lemma_ballots_bounded_by_registry(bk, e.registry.voters@);
    lemma_sorted_implies_unique(e.registry.voters@);
}

} // verus!
