use cw721_gov::engine::ProposalEngine;
use cw721_gov::errors::ContractError;
use cw721_gov::expiry::{BlockTime, Duration, Expiration};
use cw721_gov::proposal::Status;
use cw721_gov::registry::Voter;
use cw721_gov::threshold::{Percentage, Threshold, ThresholdResponse};
use cw721_gov::votes::Vote;

fn voter(addr: &str, weight: u64) -> Voter {
    Voter {
        addr: addr.to_string(),
        weight,
    }
}

fn block(height: u64, time_nanos: u64) -> BlockTime {
    BlockTime { height, time_nanos }
}

fn count_engine() -> ProposalEngine {
    // voters {A:2, B:3, C:5}, total_weight = 10, threshold weight = 5
    ProposalEngine::new(
        vec![voter("alice", 2), voter("bob", 3), voter("carol", 5)],
        Threshold::AbsoluteCount { weight: 5 },
        Duration::Height(100),
    )
    .unwrap()
}

#[test]
fn instantiate_rejects_empty_voter_list() {
    let r = ProposalEngine::new(
        vec![],
        Threshold::AbsoluteCount { weight: 1 },
        Duration::Height(10),
    );
    assert_eq!(r.err().unwrap(), ContractError::NoVoters);
}

#[test]
fn instantiate_rejects_zero_weight_threshold() {
    let r = ProposalEngine::new(
        vec![voter("alice", 2)],
        Threshold::AbsoluteCount { weight: 0 },
        Duration::Height(10),
    );
    assert_eq!(r.err().unwrap(), ContractError::ZeroWeight);
}

#[test]
fn instantiate_rejects_unreachable_threshold() {
    let r = ProposalEngine::new(
        vec![voter("alice", 2)],
        Threshold::AbsoluteCount { weight: 3 },
        Duration::Height(10),
    );
    assert_eq!(r.err().unwrap(), ContractError::UnreachableWeight);
}

#[test]
fn propose_requires_registered_weight() {
    let mut e = count_engine();
    let r = e.propose(
        "mallory",
        "t".to_string(),
        "d".to_string(),
        vec![],
        None,
        &block(5, 0),
    );
    assert_eq!(r.err().unwrap(), ContractError::Unauthorized);
}

#[test]
fn propose_rejects_incomparable_expiration() {
    let mut e = count_engine();
    // the voting period is height-based; a time-based request cannot be
    // compared against its cap
    let r = e.propose(
        "alice",
        "t".to_string(),
        "d".to_string(),
        vec![],
        Some(Expiration::AtTime(1_000_000)),
        &block(5, 0),
    );
    assert_eq!(r.err().unwrap(), ContractError::WrongExpiration);
}

#[test]
fn absolute_count_passes_exactly_at_bar() {
    // A proposes (auto yes 2) -> still open; B votes yes (yes = 5) -> Passed;
    // C voting afterwards fails NotOpen.
    let mut e = count_engine();
    let b = block(5, 0);
    let id = e
        .propose("alice", "t".to_string(), "d".to_string(), vec![], None, &b)
        .unwrap();
    assert_eq!(id, 1);
    let resp = e.query_proposal(1, &b).unwrap();
    assert_eq!(resp.status, Status::Open);

    let st = e.vote("bob", 1, Vote::Yes, &b).unwrap();
    assert_eq!(st, Status::Passed);

    let r = e.vote("carol", 1, Vote::Yes, &b);
    assert_eq!(r.err().unwrap(), ContractError::NotOpen);
}

#[test]
fn second_ballot_for_same_pair_is_rejected() {
    let mut e = count_engine();
    let b = block(5, 0);
    e.propose("alice", "t".to_string(), "d".to_string(), vec![], None, &b)
        .unwrap();
    // the proposer's automatic yes ballot already stands
    let r = e.vote("alice", 1, Vote::No, &b);
    assert_eq!(r.err().unwrap(), ContractError::AlreadyVoted);
    // the tally is untouched: bob's view of the proposal is unchanged
    let v = e.query_vote(1, "alice").vote.unwrap();
    assert_eq!(v.vote, Vote::Yes);
    assert_eq!(v.weight, 2);
    let resp = e.query_proposal(1, &b).unwrap();
    assert_eq!(resp.status, Status::Open);
}

#[test]
fn vote_on_unknown_proposal_fails() {
    let mut e = count_engine();
    let r = e.vote("alice", 7, Vote::Yes, &block(5, 0));
    assert_eq!(r.err().unwrap(), ContractError::NotFound);
}

#[test]
fn vote_by_stranger_fails() {
    let mut e = count_engine();
    let b = block(5, 0);
    e.propose("alice", "t".to_string(), "d".to_string(), vec![], None, &b)
        .unwrap();
    let r = e.vote("mallory", 1, Vote::Yes, &b);
    assert_eq!(r.err().unwrap(), ContractError::Unauthorized);
}

#[test]
fn vote_after_expiration_fails() {
    let mut e = count_engine();
    e.propose(
        "alice",
        "t".to_string(),
        "d".to_string(),
        vec![],
        None,
        &block(5, 0),
    )
    .unwrap();
    // the proposal expires at height 105
    let r = e.vote("bob", 1, Vote::Yes, &block(200, 0));
    assert_eq!(r.err().unwrap(), ContractError::Expired);
}

#[test]
fn absolute_percentage_passes_at_half() {
    // percentage 0.5, total_weight 10: yes-weight of exactly 5 passes
    // (at-least comparison, not strictly-greater).
    let mut e = ProposalEngine::new(
        vec![voter("alice", 5), voter("bob", 5)],
        Threshold::AbsolutePercentage {
            percentage: Percentage::percent(50),
        },
        Duration::Height(100),
    )
    .unwrap();
    let b = block(5, 0);
    e.propose("alice", "t".to_string(), "d".to_string(), vec![], None, &b)
        .unwrap();
    // the proposer's automatic yes ballot alone reaches the bar
    let resp = e.query_proposal(1, &b).unwrap();
    assert_eq!(resp.status, Status::Passed);
}

#[test]
fn status_projection_is_stable_between_votes() {
    let mut e = count_engine();
    e.propose(
        "alice",
        "t".to_string(),
        "d".to_string(),
        vec![],
        None,
        &block(5, 0),
    )
    .unwrap();
    // two reads at different unexpired heights with no intervening vote
    let s1 = e.query_proposal(1, &block(6, 0)).unwrap().status;
    let s2 = e.query_proposal(1, &block(90, 0)).unwrap().status;
    assert_eq!(s1, s2);
    // once the expiration boundary is crossed, the projection flips
    let s3 = e.query_proposal(1, &block(200, 0)).unwrap().status;
    assert_eq!(s3, Status::Rejected);
}

#[test]
fn execute_succeeds_after_expiration_once_passed() {
    let mut e = count_engine();
    let b = block(5, 0);
    e.propose("alice", "t".to_string(), "d".to_string(), vec![], None, &b)
        .unwrap();
    e.vote("carol", 1, Vote::Yes, &b).unwrap();
    // decided before the deadline; execution comes long after it
    let acts = e.execute(1).unwrap();
    assert_eq!(acts.len(), 0);
    let resp = e.query_proposal(1, &block(500, 0)).unwrap();
    assert_eq!(resp.status, Status::Executed);
    // a retried execute fails: the status already flipped
    let r = e.execute(1);
    assert_eq!(r.err().unwrap(), ContractError::WrongExecuteStatus);
}

#[test]
fn execute_requires_passed_status() {
    let mut e = count_engine();
    let b = block(5, 0);
    e.propose("alice", "t".to_string(), "d".to_string(), vec![], None, &b)
        .unwrap();
    let r = e.execute(1);
    assert_eq!(r.err().unwrap(), ContractError::WrongExecuteStatus);
}

#[test]
fn close_follows_the_lifecycle() {
    let mut e = count_engine();
    let b = block(5, 0);
    e.propose("alice", "t".to_string(), "d".to_string(), vec![], None, &b)
        .unwrap();
    // an open, unexpired proposal cannot be closed
    let r = e.close(1, &block(50, 0));
    assert_eq!(r.err().unwrap(), ContractError::NotExpired);
    // an open, expired proposal closes to Rejected
    e.close(1, &block(200, 0)).unwrap();
    let resp = e.query_proposal(1, &block(200, 0)).unwrap();
    assert_eq!(resp.status, Status::Rejected);
    // a closed proposal cannot be closed again
    let r = e.close(1, &block(201, 0));
    assert_eq!(r.err().unwrap(), ContractError::WrongCloseStatus);
}

#[test]
fn close_rejects_executed_proposal() {
    let mut e = count_engine();
    let b = block(5, 0);
    e.propose("alice", "t".to_string(), "d".to_string(), vec![], None, &b)
        .unwrap();
    e.vote("carol", 1, Vote::Yes, &b).unwrap();
    e.execute(1).unwrap();
    let r = e.close(1, &block(500, 0));
    assert_eq!(r.err().unwrap(), ContractError::WrongCloseStatus);
}

#[test]
fn queries_list_voters_and_votes_in_address_order() {
    let mut e = count_engine();
    let b = block(5, 0);
    e.propose("alice", "t".to_string(), "d".to_string(), vec![], None, &b)
        .unwrap();
    e.vote("bob", 1, Vote::Abstain, &b).unwrap();
    e.vote("carol", 1, Vote::No, &b).unwrap();

    let voters = e.list_voters(None, 10).voters;
    let names: Vec<&str> = voters.iter().map(|v| v.addr.as_str()).collect();
    assert_eq!(names, vec!["alice", "bob", "carol"]);

    let page = e.list_voters(Some("alice"), 10).voters;
    let names: Vec<&str> = page.iter().map(|v| v.addr.as_str()).collect();
    assert_eq!(names, vec!["bob", "carol"]);

    let votes = e.list_votes(1, None, 10).votes;
    let names: Vec<&str> = votes.iter().map(|v| v.voter.as_str()).collect();
    assert_eq!(names, vec!["alice", "bob", "carol"]);
    assert_eq!(votes[0].vote, Vote::Yes);
    assert_eq!(votes[0].weight, 2);
    assert_eq!(votes[1].vote, Vote::Abstain);
    assert_eq!(votes[2].vote, Vote::No);

    let page = e.list_votes(1, Some("bob"), 1).votes;
    assert_eq!(page.len(), 1);
    assert_eq!(page[0].voter, "carol");

    // cast ballot weights never sum past the snapshotted total weight
    let cast: u64 = votes.iter().map(|v| v.weight).sum();
    assert!(cast <= 10);

    assert_eq!(e.query_voter("bob").weight, Some(3));
    assert_eq!(e.query_voter("mallory").weight, None);
}

#[test]
fn proposal_listings_follow_numeric_id_order() {
    let mut e = count_engine();
    let b = block(5, 0);
    for i in 0..3 {
        e.propose(
            "alice",
            format!("proposal {}", i),
            "d".to_string(),
            vec![],
            None,
            &b,
        )
        .unwrap();
    }
    let all = e.list_proposals(None, 10, &b).proposals;
    let ids: Vec<u64> = all.iter().map(|p| p.id).collect();
    assert_eq!(ids, vec![1, 2, 3]);

    let after = e.list_proposals(Some(1), 10, &b).proposals;
    let ids: Vec<u64> = after.iter().map(|p| p.id).collect();
    assert_eq!(ids, vec![2, 3]);

    let rev = e.reverse_proposals(None, 2, &b).proposals;
    let ids: Vec<u64> = rev.iter().map(|p| p.id).collect();
    assert_eq!(ids, vec![3, 2]);

    let before = e.reverse_proposals(Some(3), 10, &b).proposals;
    let ids: Vec<u64> = before.iter().map(|p| p.id).collect();
    assert_eq!(ids, vec![2, 1]);
}

#[test]
fn threshold_query_reports_the_snapshot() {
    let e = count_engine();
    match e.query_threshold() {
        ThresholdResponse::AbsoluteCount {
            weight,
            total_weight,
        } => {
            assert_eq!(weight, 5);
            assert_eq!(total_weight, 10);
        }
        _ => panic!("wrong threshold variant"),
    }
}

#[test]
fn requested_expiration_is_capped_at_the_voting_period() {
    let mut e = count_engine();
    let b = block(5, 0);
    e.propose(
        "alice",
        "t".to_string(),
        "d".to_string(),
        vec![],
        Some(Expiration::AtHeight(1_000_000)),
        &b,
    )
    .unwrap();
    let resp = e.query_proposal(1, &b).unwrap();
    assert_eq!(resp.expires, Expiration::AtHeight(105));
}
