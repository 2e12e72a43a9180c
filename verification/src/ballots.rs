//! The ballot ledger: an append-only, one-ballot-per-voter record of cast
//! votes for one proposal, ordered by voter address bytes.
use vstd::prelude::*;

use crate::keyorder::{compare_keys, key_of, lemma_lex_asym, lemma_lex_trans, lex_lt, KeyCmp};
use crate::registry::{spec_weights_sum, Voter};
use crate::votes::{
    lemma_add_vote_commutes, spec_add_vote, spec_total, Vote, VoteTally,
};

verus! {

/// One voter's recorded choice and weight on one proposal. Created once
/// per (proposal, voter); never overwritten.
#[derive(Clone, Debug)]
pub struct Ballot {
    pub voter: String,
    pub weight: u64,
    pub vote: Vote,
}

/// The key bytes a ballot is ordered by.
pub open spec fn ballot_key(b: Ballot) -> Seq<u8> {
    key_of(b.voter@)
}

/// Ballots strictly ascending by voter address bytes (hence at most one
/// per voter).
pub open spec fn ballots_sorted(s: Seq<Ballot>) -> bool {
    forall|i: int, j: int|
        0 <= i < j < s.len() ==> lex_lt(#[trigger] ballot_key(s[i]), #[trigger] ballot_key(s[j]))
}

/// No two ballots share a voter.
pub open spec fn ballots_unique(s: Seq<Ballot>) -> bool {
    forall|i: int, j: int|
        0 <= i < j < s.len() ==> (#[trigger] s[i].voter@) != (#[trigger] s[j].voter@)
}

/// Sum of all cast ballot weights, as an unbounded integer.
pub open spec fn spec_ballots_weight_sum(s: Seq<Ballot>) -> int
    decreases s.len(),
{
    if s.len() == 0 {
        0
    } else {
        spec_ballots_weight_sum(s.drop_last()) + s.last().weight
    }
}

/// The tally the recorded ballots add up to.
pub open spec fn spec_ballots_tally(s: Seq<Ballot>) -> VoteTally
    decreases s.len(),
{
    if s.len() == 0 {
        VoteTally { yes: 0, no: 0, abstain: 0, veto: 0 }
    } else {
        spec_add_vote(spec_ballots_tally(s.drop_last()), s.last().vote, s.last().weight)
    }
}

/// Every ballot carries the weight its voter holds in the registry.
pub open spec fn ballots_match_registry(s: Seq<Ballot>, voters: Seq<Voter>) -> bool {
    forall|i: int| #![trigger s[i]] 0 <= i < s.len() ==> exists|j: int|
        0 <= j < voters.len() && (#[trigger] voters[j]).addr@ == s[i].voter@ && voters[j].weight
            == s[i].weight
}

/// Sorted ballots are unique per voter.
pub proof fn lemma_ballots_sorted_implies_unique(s: Seq<Ballot>)
    requires
        ballots_sorted(s),
    ensures
        ballots_unique(s),
{
    assert forall|i: int, j: int| 0 <= i < j < s.len() implies (#[trigger] s[i].voter@)
        != (#[trigger] s[j].voter@) by {
        assert(lex_lt(ballot_key(s[i]), ballot_key(s[j])));
        lemma_lex_asym(ballot_key(s[i]), ballot_key(s[j]));
    }
}

/// A ballot weight sum is never negative.
pub proof fn lemma_ballots_sum_nonneg(s: Seq<Ballot>)
    ensures
        spec_ballots_weight_sum(s) >= 0,
    decreases s.len(),
{
    if s.len() > 0 {
        lemma_ballots_sum_nonneg(s.drop_last());
    }
}

/// Inserting a ballot anywhere adds exactly its weight to the sum.
pub proof fn lemma_ballots_sum_insert(s: Seq<Ballot>, i: int, b: Ballot)
    requires
        0 <= i <= s.len(),
    ensures
        spec_ballots_weight_sum(s.insert(i, b)) == spec_ballots_weight_sum(s) + b.weight,
    decreases s.len(),
{
    s.insert_ensures(i, b);
    if i == s.len() {
        assert(s.insert(i, b).drop_last() =~= s);
    } else {
        assert(s.insert(i, b).drop_last() =~= s.drop_last().insert(i, b));
        assert(s.insert(i, b).last() == s.last());
        lemma_ballots_sum_insert(s.drop_last(), i, b);
    }
}

/// While the weights fit the counter, the tally's options sum to exactly
/// the recorded ballot weights.
pub proof fn lemma_tally_total(s: Seq<Ballot>)
    requires
        spec_ballots_weight_sum(s) <= u64::MAX,
    ensures
        spec_total(spec_ballots_tally(s)) == spec_ballots_weight_sum(s),
    decreases s.len(),
{
    if s.len() > 0 {
        lemma_ballots_sum_nonneg(s.drop_last());
        lemma_tally_total(s.drop_last());
    }
}

/// Recording an inserted ballot at any position tallies the same as
/// recording it last: the tally is order-independent.
pub proof fn lemma_tally_insert(s: Seq<Ballot>, i: int, b: Ballot)
    requires
        0 <= i <= s.len(),
        spec_ballots_weight_sum(s) + b.weight <= u64::MAX,
    ensures
        spec_ballots_tally(s.insert(i, b)) == spec_add_vote(
            spec_ballots_tally(s),
            b.vote,
            b.weight,
        ),
    decreases s.len(),
{
    s.insert_ensures(i, b);
    if i == s.len() {
        assert(s.insert(i, b).drop_last() =~= s);
    } else {
        assert(s.insert(i, b).drop_last() =~= s.drop_last().insert(i, b));
        assert(s.insert(i, b).last() == s.last());
        lemma_ballots_sum_nonneg(s.drop_last());
        lemma_tally_insert(s.drop_last(), i, b);
        lemma_tally_total(s.drop_last());
        lemma_add_vote_commutes(
            spec_ballots_tally(s.drop_last()),
            b.vote,
            b.weight,
            s.last().vote,
            s.last().weight,
        );
    }
}

/// The heart of the weight bound: ballots from distinct registered voters,
/// each cast at its registered weight, can never sum to more than the
/// whole registry.
pub proof fn lemma_ballots_bounded_by_registry(s: Seq<Ballot>, voters: Seq<Voter>)
    requires
        ballots_unique(s),
        ballots_match_registry(s, voters),
    ensures
        spec_ballots_weight_sum(s) <= spec_weights_sum(voters),
    decreases s.len(),
{
    if s.len() == 0 {
        crate::registry::lemma_sum_nonneg(voters);
    } else {
        let b = s.last();
        let rest = s.drop_last();
        let j = choose|j: int|
            0 <= j < voters.len() && (#[trigger] voters[j]).addr@ == b.voter@ && voters[j].weight
                == b.weight;
        let pruned = voters.remove(j);
        assert(pruned.insert(j, voters[j]) =~= voters);
        crate::registry::lemma_sum_insert(pruned, j, voters[j]);
        assert(spec_weights_sum(voters) == spec_weights_sum(pruned) + b.weight);
        assert(ballots_match_registry(rest, pruned)) by {
            assert forall|i: int| #![trigger rest[i]] 0 <= i < rest.len() implies exists|k: int|
                0 <= k < pruned.len() && (#[trigger] pruned[k]).addr@ == rest[i].voter@
                    && pruned[k].weight == rest[i].weight by {
                assert(rest[i] == s[i]);
                let k0 = choose|k0: int|
                    0 <= k0 < voters.len() && (#[trigger] voters[k0]).addr@ == s[i].voter@
                        && voters[k0].weight == s[i].weight;
                // The pruned entry was the last ballot's voter, who differs
                // from every earlier ballot's voter.
                assert(s[i].voter@ != b.voter@);
                assert(k0 != j);
                if k0 < j {
                    assert(pruned[k0] == voters[k0]);
                } else {
                    assert(pruned[k0 - 1] == voters[k0]);
                }
            }
        }
        lemma_ballots_bounded_by_registry(rest, pruned);
    }
}

/// Insert a ballot into a sorted book, keeping it sorted. Returns the
/// insertion index, or `None` (and leaves the book unchanged) when this
/// voter has already cast a ballot here.
pub fn ballot_insert(rows: &mut Vec<Ballot>, b: Ballot) -> (r: Option<usize>)
    requires
        ballots_sorted(old(rows)@),
    ensures
        ballots_sorted(final(rows)@),
        match r {
            Some(pos) => {
                &&& 0 <= pos <= old(rows)@.len()
                &&& final(rows)@ == old(rows)@.insert(pos as int, b)
                &&& forall|i: int| 0 <= i < old(rows)@.len() ==> (#[trigger] old(rows)@[i].voter@)
                    != b.voter@
            },
            None => {
                &&& final(rows)@ == old(rows)@
                &&& exists|i: int| 0 <= i < old(rows)@.len() && (#[trigger] old(rows)@[i].voter@)
                    == b.voter@
            },
        },
{
    let ghost rows0 = rows@;
    let n = rows.len();
    let mut i: usize = 0;
    while i < n
        invariant
            0 <= i <= n,
            n == rows0.len(),
            rows0 == old(rows)@,
            rows@ == rows0,
            ballots_sorted(rows0),
            forall|j: int| 0 <= j < i ==> lex_lt(#[trigger] ballot_key(rows0[j]), key_of(b.voter@)),
        decreases n - i,
    {
        let c = compare_keys(rows[i].voter.as_str(), b.voter.as_str());
        match c {
            KeyCmp::Same => {
                assert(rows0[i as int].voter@ == b.voter@);
                return None;
            },
            KeyCmp::Above => {
                proof {
                    assert forall|j: int| i <= j < rows0.len() implies lex_lt(
                        key_of(b.voter@),
                        #[trigger] ballot_key(rows0[j]),
                    ) by {
                        if j > i {
                            lemma_lex_trans(
                                key_of(b.voter@),
                                ballot_key(rows0[i as int]),
                                ballot_key(rows0[j]),
                            );
                        }
                    }
                    rows0.insert_ensures(i as int, b);
                }
                rows.insert(i, b);
                proof {
                    assert forall|p: int, q: int| 0 <= p < q < rows@.len() implies lex_lt(
                        #[trigger] ballot_key(rows@[p]),
                        #[trigger] ballot_key(rows@[q]),
                    ) by {
                        let iv = i as int;
                        if q < iv {
                        } else if p < iv && q == iv {
                        } else if p < iv && q > iv {
                            assert(rows@[q] == rows0[q - 1]);
                        } else if p == iv {
                            assert(rows@[q] == rows0[q - 1]);
                        } else {
                            assert(rows@[p] == rows0[p - 1] && rows@[q] == rows0[q - 1]);
                        }
                    }
                    assert forall|j: int| 0 <= j < rows0.len() implies (#[trigger] rows0[j].voter@)
                        != b.voter@ by {
                        if j < i {
                            lemma_lex_asym(ballot_key(rows0[j]), key_of(b.voter@));
                        } else {
                            lemma_lex_asym(key_of(b.voter@), ballot_key(rows0[j]));
                        }
                    }
                }
                return Some(i);
            },
            KeyCmp::Below => {
                i = i + 1;
            },
        }
    }
    proof {
        rows0.insert_ensures(rows0.len() as int, b);
        assert(rows0.insert(rows0.len() as int, b) =~= rows0.push(b));
        assert forall|j: int| 0 <= j < rows0.len() implies (#[trigger] rows0[j].voter@)
            != b.voter@ by {
            lemma_lex_asym(ballot_key(rows0[j]), key_of(b.voter@));
        }
    }
    rows.push(b);
    proof {
        assert forall|p: int, q: int| 0 <= p < q < rows@.len() implies lex_lt(
            #[trigger] ballot_key(rows@[p]),
            #[trigger] ballot_key(rows@[q]),
        ) by {
            if q == rows@.len() - 1 {
                assert(rows@[q] == b);
            }
        }
    }
    Some(n)
}

/// Look a voter's ballot up in a book: the index of the row whose voter is
/// exactly the given address, if one exists.
pub fn ballot_find(rows: &Vec<Ballot>, voter: &str) -> (r: Option<usize>)
    ensures
        match r {
            Some(i) => 0 <= i < rows@.len() && rows@[i as int].voter@ == voter@,
            None => forall|i: int|
                0 <= i < rows@.len() ==> (#[trigger] rows@[i].voter@) != voter@,
        },
{
    let n = rows.len();
    let mut i: usize = 0;
    while i < n
        invariant
            0 <= i <= n,
            n == rows@.len(),
            forall|j: int| 0 <= j < i ==> (#[trigger] rows@[j].voter@) != voter@,
        decreases n - i,
    {
        let c = compare_keys(rows[i].voter.as_str(), voter);
        if matches!(c, KeyCmp::Same) {
            return Some(i);
        }
        i = i + 1;
    }
    None
}

} // verus!
