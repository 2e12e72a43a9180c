//! The engine's read side: pure projections over the governance state,
//! with an exclusive start-after cursor and a capped page size for the
//! listings. Nothing here mutates anything.
use vstd::prelude::*;

use crate::ballots::{ballot_find, ballot_key, ballots_sorted, Ballot};
use crate::engine::ProposalEngine;
use crate::errors::ContractError;
use crate::expiry::{BlockTime, Expiration};
use crate::keyorder::{compare_keys, key_of, lemma_lex_trans, lex_le, lex_lt, KeyCmp};
use crate::proposal::{spec_current_status, Action, Proposal, Status};
use crate::registry::{voter_key, voters_sorted, Voter};
use crate::threshold::{spec_to_response, ThresholdResponse};
use crate::votes::Vote;

verus! {

/// One recorded vote, with the voter who cast it.
#[derive(Clone, Debug)]
pub struct VoteInfo {
    pub proposal_id: u64,
    pub voter: String,
    pub vote: Vote,
    pub weight: u64,
}

/// A single-vote lookup: `None` when no ballot exists for the pair.
#[derive(Clone, Debug)]
pub struct VoteResponse {
    pub vote: Option<VoteInfo>,
}

/// One page of votes on a proposal, ascending by voter address bytes.
#[derive(Clone, Debug)]
pub struct VoteListResponse {
    pub votes: Vec<VoteInfo>,
}

/// A single-voter lookup: the registered weight, if any.
#[derive(Clone, Debug, PartialEq)]
pub struct VoterResponse {
    pub weight: Option<u64>,
}

/// One registered voter, as listed.
#[derive(Clone, Debug)]
pub struct VoterDetail {
    pub addr: String,
    pub weight: u64,
}

/// One page of voters, ascending by address bytes.
#[derive(Clone, Debug)]
pub struct VoterListResponse {
    pub voters: Vec<VoterDetail>,
}

/// A proposal as reported to queriers: its status is recomputed against
/// the caller's block, and the threshold shown is the snapshot taken at
/// creation time.
#[derive(Clone, Debug)]
pub struct ProposalResponse {
    pub id: u64,
    pub title: String,
    pub description: String,
    pub actions: Vec<Action>,
    pub status: Status,
    pub expires: Expiration,
    pub threshold: ThresholdResponse,
}

/// One page of proposals.
#[derive(Clone, Debug)]
pub struct ProposalListResponse {
    pub proposals: Vec<ProposalResponse>,
}

/// The response reports exactly this proposal, with its status projected
/// at the given block.
pub open spec fn response_matches(resp: ProposalResponse, p: Proposal, block: BlockTime) -> bool {
    &&& resp.id == p.id
    &&& resp.title@ == p.title@
    &&& resp.description@ == p.description@
    &&& resp.actions@.len() == p.actions@.len()
    &&& forall|k: int|
        0 <= k < resp.actions@.len() ==> (#[trigger] resp.actions@[k].payload@)
            == p.actions@[k].payload@
    &&& resp.status == spec_current_status(p, block)
    &&& resp.expires == p.expires
    &&& resp.threshold == spec_to_response(p.threshold, p.total_weight)
}

/// The byte-key view of an optional cursor address.
pub open spec fn cursor_view(c: Option<&str>) -> Option<Seq<char>> {
    match c {
        None => None,
        Some(s) => Some(s@),
    }
}

/// The vote info reports exactly this ballot on this proposal.
pub open spec fn vote_info_matches(vi: VoteInfo, proposal_id: u64, b: Ballot) -> bool {
    &&& vi.proposal_id == proposal_id
    &&& vi.voter@ == b.voter@
    &&& vi.vote == b.vote
    &&& vi.weight == b.weight
}

/// A voters page: `out` is the run of `rows` that starts right after the
/// cursor (everything before position `s` is at or below it, everything
/// from `s` on is above it), cut off at `limit` entries.
pub open spec fn voters_page(
    rows: Seq<Voter>,
    cursor: Option<Seq<char>>,
    limit: int,
    out: Seq<VoterDetail>,
    s: int,
) -> bool {
    &&& 0 <= s <= rows.len()
    &&& match cursor {
        None => s == 0,
        Some(c) => {
            &&& forall|j: int| 0 <= j < s ==> lex_le(voter_key(#[trigger] rows[j]), key_of(c))
            &&& forall|j: int|
                s <= j < rows.len() ==> lex_lt(key_of(c), voter_key(#[trigger] rows[j]))
        },
    }
    &&& out.len() == if limit <= rows.len() - s {
        limit
    } else {
        rows.len() - s
    }
    &&& forall|k: int|
        0 <= k < out.len() ==> (#[trigger] out[k]).addr@ == rows[s + k].addr@ && out[k].weight
            == rows[s + k].weight
}

/// A votes page over one proposal's ballot book, in the same shape.
pub open spec fn votes_page(
    rows: Seq<Ballot>,
    proposal_id: u64,
    cursor: Option<Seq<char>>,
    limit: int,
    out: Seq<VoteInfo>,
    s: int,
) -> bool {
    &&& 0 <= s <= rows.len()
    &&& match cursor {
        None => s == 0,
        Some(c) => {
            &&& forall|j: int| 0 <= j < s ==> lex_le(ballot_key(#[trigger] rows[j]), key_of(c))
            &&& forall|j: int|
                s <= j < rows.len() ==> lex_lt(key_of(c), ballot_key(#[trigger] rows[j]))
        },
    }
    &&& out.len() == if limit <= rows.len() - s {
        limit
    } else {
        rows.len() - s
    }
    &&& forall|k: int|
        0 <= k < out.len() ==> vote_info_matches(#[trigger] out[k], proposal_id, rows[s + k])
}

/// Build the query view of one proposal at the given block.
fn make_proposal_response(p: &Proposal, block: &BlockTime) -> (r: ProposalResponse)
    requires
        p.tally_wf(),
    ensures
        response_matches(r, *p, *block),
{
    let status = p.current_status(block);
    let mut actions: Vec<Action> = Vec::new();
    let n = p.actions.len();
    let mut k: usize = 0;
    while k < n
        invariant
            0 <= k <= n,
            n == p.actions@.len(),
            actions@.len() == k,
            forall|m: int|
                0 <= m < k ==> (#[trigger] actions@[m].payload@) == p.actions@[m].payload@,
        decreases n - k,
    {
        actions.push(Action { payload: p.actions[k].payload.clone() });
        k = k + 1;
    }
    ProposalResponse {
        id: p.id,
        title: p.title.clone(),
        description: p.description.clone(),
        actions,
        status,
        expires: p.expires,
        threshold: p.threshold.to_response(p.total_weight),
    }
}

impl ProposalEngine {
    /// The configured threshold, reported against the registry's total.
    pub fn query_threshold(&self) -> (r: ThresholdResponse)
        ensures
            r == spec_to_response(self.threshold, self.registry.total),
    {
        self.threshold.to_response(self.registry.total)
    }

    /// Look one proposal up; its status is recomputed against the caller's
    /// block without being persisted.
    pub fn query_proposal(&self, proposal_id: u64, block: &BlockTime) -> (r: Result<
        ProposalResponse,
        ContractError,
    >)
        requires
            self.wf(),
        ensures
            match r {
                Ok(resp) => self.spec_valid_pid(proposal_id) && response_matches(
                    resp,
                    self.proposals@[proposal_id - 1],
                    *block,
                ),
                Err(e) => e == ContractError::NotFound && !self.spec_valid_pid(proposal_id),
            },
    {
        if proposal_id == 0 || proposal_id > self.proposals.len() as u64 {
            return Err(ContractError::NotFound);
        }
        let idx = (proposal_id - 1) as usize;
        Ok(make_proposal_response(&self.proposals[idx], block))
    }

    /// List proposals ascending by id, starting after the cursor id, at
    /// most `limit` of them.
    pub fn list_proposals(&self, start_after: Option<u64>, limit: usize, block: &BlockTime) -> (r:
        ProposalListResponse)
        requires
            self.wf(),
        ensures
            ({
                let n = self.proposals@.len() as int;
                let s = match start_after {
                    None => 0int,
                    Some(a) => if a <= n {
                        a as int
                    } else {
                        n
                    },
                };
                let count = if limit <= n - s {
                    limit as int
                } else {
                    n - s
                };
                &&& r.proposals@.len() == count
                &&& forall|k: int|
                    0 <= k < count ==> response_matches(
                        #[trigger] r.proposals@[k],
                        self.proposals@[s + k],
                        *block,
                    )
            }),
    {
        let n = self.proposals.len();
        let s: usize = match start_after {
            None => 0,
            Some(a) => if a <= n as u64 {
                a as usize
            } else {
                n
            },
        };
        let remaining = n - s;
        let count = if limit <= remaining {
            limit
        } else {
            remaining
        };
        let mut out: Vec<ProposalResponse> = Vec::new();
        let mut k: usize = 0;
        while k < count
            invariant
                self.wf(),
                0 <= k <= count,
                s + count <= n,
                n == self.proposals@.len(),
                out@.len() == k,
                forall|m: int|
                    0 <= m < k ==> response_matches(
                        #[trigger] out@[m],
                        self.proposals@[s + m],
                        *block,
                    ),
            decreases count - k,
        {
            out.push(make_proposal_response(&self.proposals[s + k], block));
            k = k + 1;
        }
        ProposalListResponse { proposals: out }
    }

    /// List proposals descending by id, starting below the cursor id, at
    /// most `limit` of them.
    pub fn reverse_proposals(&self, start_before: Option<u64>, limit: usize, block: &BlockTime)
        -> (r: ProposalListResponse)
        requires
            self.wf(),
        ensures
            ({
                let n = self.proposals@.len() as int;
                let e = match start_before {
                    None => n,
                    Some(b) => if b - 1 <= n {
                        if b >= 1 {
                            (b - 1) as int
                        } else {
                            0int
                        }
                    } else {
                        n
                    },
                };
                let count = if limit <= e {
                    limit as int
                } else {
                    e
                };
                &&& r.proposals@.len() == count
                &&& forall|k: int|
                    0 <= k < count ==> response_matches(
                        #[trigger] r.proposals@[k],
                        self.proposals@[e - 1 - k],
                        *block,
                    )
            }),
    {
        let n = self.proposals.len();
        let e: usize = match start_before {
            None => n,
            Some(b) => if b == 0 {
                0
            } else if b - 1 <= n as u64 {
                (b - 1) as usize
            } else {
                n
            },
        };
        let count = if limit <= e {
            limit
        } else {
            e
        };
        let mut out: Vec<ProposalResponse> = Vec::new();
        let mut k: usize = 0;
        while k < count
            invariant
                self.wf(),
                0 <= k <= count,
                count <= e <= n,
                n == self.proposals@.len(),
                out@.len() == k,
                forall|m: int|
                    0 <= m < k ==> response_matches(
                        #[trigger] out@[m],
                        self.proposals@[e - 1 - m],
                        *block,
                    ),
            decreases count - k,
        {
            out.push(make_proposal_response(&self.proposals[e - 1 - k], block));
            k = k + 1;
        }
        ProposalListResponse { proposals: out }
    }

    /// Look one voter's ballot on one proposal up. An unknown proposal or
    /// an uncast voter both report `None`.
    pub fn query_vote(&self, proposal_id: u64, voter: &str) -> (r: VoteResponse)
        requires
            self.wf(),
        ensures
            match r.vote {
                Some(vi) => {
                    &&& self.spec_valid_pid(proposal_id)
                    &&& exists|k: int|
                        0 <= k < self.spec_book(proposal_id).len() && (#[trigger] self.spec_book(
                            proposal_id,
                        )[k]).voter@ == voter@ && vote_info_matches(
                            vi,
                            proposal_id,
                            self.spec_book(proposal_id)[k],
                        )
                },
                None => !self.spec_valid_pid(proposal_id) || !self.spec_has_ballot(
                    proposal_id,
                    voter@,
                ),
            },
    {
        if proposal_id == 0 || proposal_id > self.ballots.len() as u64 {
            return VoteResponse { vote: None };
        }
        let idx = (proposal_id - 1) as usize;
        match ballot_find(&self.ballots[idx], voter) {
            Some(k) => {
                let b = &self.ballots[idx][k];
                proof {
                    assert(self.spec_book(proposal_id) == self.ballots@[idx as int]@);
                    assert(self.spec_book(proposal_id)[k as int].voter@ == voter@);
                }
                VoteResponse {
                    vote: Some(
                        VoteInfo {
                            proposal_id,
                            voter: b.voter.clone(),
                            vote: b.vote,
                            weight: b.weight,
                        },
                    ),
                }
            },
            None => VoteResponse { vote: None },
        }
    }

    /// List the ballots on one proposal, ascending by voter address bytes,
    /// starting after the cursor address, at most `limit` of them. An
    /// unknown proposal lists nothing.
    pub fn list_votes(&self, proposal_id: u64, start_after: Option<&str>, limit: usize) -> (r:
        VoteListResponse)
        requires
            self.wf(),
        ensures
            !self.spec_valid_pid(proposal_id) ==> r.votes@.len() == 0,
            self.spec_valid_pid(proposal_id) ==> exists|s: int|
                #[trigger] votes_page(
                    self.spec_book(proposal_id),
                    proposal_id,
                    cursor_view(start_after),
                    limit as int,
                    r.votes@,
                    s,
                ),
    {
        if proposal_id == 0 || proposal_id > self.ballots.len() as u64 {
            return VoteListResponse { votes: Vec::new() };
        }
        let idx = (proposal_id - 1) as usize;
        let rows = &self.ballots[idx];
        let n = rows.len();
        let mut s: usize = 0;
        proof {
            assert(ballots_sorted(rows@));
        }
        match start_after {
            None => {},
            Some(cur) => {
                while s < n
                    invariant_except_break
                        0 <= s <= n,
                        n == rows@.len(),
                        ballots_sorted(rows@),
                        forall|j: int|
                            0 <= j < s ==> lex_le(ballot_key(#[trigger] rows@[j]), key_of(cur@)),
                    ensures
                        0 <= s <= n,
                        n == rows@.len(),
                        forall|j: int|
                            0 <= j < s ==> lex_le(ballot_key(#[trigger] rows@[j]), key_of(cur@)),
                        forall|j: int|
                            s <= j < n ==> lex_lt(key_of(cur@), ballot_key(#[trigger] rows@[j])),
                    decreases n - s,
                {
                    let c = compare_keys(rows[s].voter.as_str(), cur);
                    if matches!(c, KeyCmp::Above) {
                        proof {
                            assert forall|j: int| s <= j < n implies lex_lt(
                                key_of(cur@),
                                ballot_key(#[trigger] rows@[j]),
                            ) by {
                                if j > s {
                                    lemma_lex_trans(
                                        key_of(cur@),
                                        ballot_key(rows@[s as int]),
                                        ballot_key(rows@[j]),
                                    );
                                }
                            }
                        }
                        break;
                    }
                    s = s + 1;
                }
            },
        }
        let remaining = n - s;
        let count = if limit <= remaining {
            limit
        } else {
            remaining
        };
        let mut out: Vec<VoteInfo> = Vec::new();
        let mut k: usize = 0;
        while k < count
            invariant
                0 <= k <= count,
                s + count <= n,
                n == rows@.len(),
                out@.len() == k,
                forall|m: int|
                    0 <= m < k ==> vote_info_matches(
                        #[trigger] out@[m],
                        proposal_id,
                        rows@[s + m],
                    ),
            decreases count - k,
        {
            let b = &rows[s + k];
            out.push(
                VoteInfo { proposal_id, voter: b.voter.clone(), vote: b.vote, weight: b.weight },
            );
            k = k + 1;
        }
        let resp = VoteListResponse { votes: out };
        proof {
            assert(self.spec_book(proposal_id) == rows@);
            assert(votes_page(
                self.spec_book(proposal_id),
                proposal_id,
                cursor_view(start_after),
                limit as int,
                resp.votes@,
                s as int,
            ));
        }
        resp
    }

    /// Look one voter's registered weight up.
    pub fn query_voter(&self, addr: &str) -> (r: VoterResponse)
        requires
            self.wf(),
        ensures
            r.weight == self.registry.spec_weight_of(addr@),
    {
        proof {
            crate::registry::lemma_sorted_implies_unique(self.registry.voters@);
        }
        VoterResponse { weight: self.registry.weight_of(addr) }
    }

    /// List the registered voters, ascending by address bytes, starting
    /// after the cursor address, at most `limit` of them.
    pub fn list_voters(&self, start_after: Option<&str>, limit: usize) -> (r: VoterListResponse)
        requires
            self.wf(),
        ensures
            exists|s: int|
                #[trigger] voters_page(
                    self.registry.voters@,
                    cursor_view(start_after),
                    limit as int,
                    r.voters@,
                    s,
                ),
    {
        let rows = &self.registry.voters;
        let n = rows.len();
        let mut s: usize = 0;
        proof {
            assert(voters_sorted(rows@));
        }
        match start_after {
            None => {},
            Some(cur) => {
                while s < n
                    invariant_except_break
                        0 <= s <= n,
                        n == rows@.len(),
                        voters_sorted(rows@),
                        forall|j: int|
                            0 <= j < s ==> lex_le(voter_key(#[trigger] rows@[j]), key_of(cur@)),
                    ensures
                        0 <= s <= n,
                        n == rows@.len(),
                        forall|j: int|
                            0 <= j < s ==> lex_le(voter_key(#[trigger] rows@[j]), key_of(cur@)),
                        forall|j: int|
                            s <= j < n ==> lex_lt(key_of(cur@), voter_key(#[trigger] rows@[j])),
                    decreases n - s,
                {
                    let c = compare_keys(rows[s].addr.as_str(), cur);
                    if matches!(c, KeyCmp::Above) {
                        proof {
                            assert forall|j: int| s <= j < n implies lex_lt(
                                key_of(cur@),
                                voter_key(#[trigger] rows@[j]),
                            ) by {
                                if j > s {
                                    lemma_lex_trans(
                                        key_of(cur@),
                                        voter_key(rows@[s as int]),
                                        voter_key(rows@[j]),
                                    );
                                }
                            }
                        }
                        break;
                    }
                    s = s + 1;
                }
            },
        }
        let remaining = n - s;
        let count = if limit <= remaining {
            limit
        } else {
            remaining
        };
        let mut out: Vec<VoterDetail> = Vec::new();
        let mut k: usize = 0;
        while k < count
            invariant
                0 <= k <= count,
                s + count <= n,
                n == rows@.len(),
                out@.len() == k,
                forall|m: int|
                    0 <= m < k ==> (#[trigger] out@[m]).addr@ == rows@[s + m].addr@ && out@[m].weight
                        == rows@[s + m].weight,
            decreases count - k,
        {
            let v = &rows[s + k];
            out.push(VoterDetail { addr: v.addr.clone(), weight: v.weight });
            k = k + 1;
        }
        let resp = VoterListResponse { voters: out };
        proof {
            assert(voters_page(
                self.registry.voters@,
                cursor_view(start_after),
                limit as int,
                resp.voters@,
                s as int,
            ));
        }
        resp
    }
}

} // verus!
