//! The voter registry: an immutable-after-init mapping of participant
//! address to voting weight, with its aggregate total weight.
use vstd::prelude::*;

use crate::errors::ContractError;
use crate::keyorder::{compare_keys, key_of, lemma_lex_asym, lemma_lex_trans, lex_lt, KeyCmp};

verus! {

/// One registered participant and their fixed voting weight.
#[derive(Clone, Debug)]
pub struct Voter {
    pub addr: String,
    pub weight: u64,
}

/// The key bytes a voter entry is ordered by.
pub open spec fn voter_key(v: Voter) -> Seq<u8> {
    key_of(v.addr@)
}

/// Entries strictly ascending by address bytes (hence no duplicates).
pub open spec fn voters_sorted(s: Seq<Voter>) -> bool {
    forall|i: int, j: int|
        0 <= i < j < s.len() ==> lex_lt(#[trigger] voter_key(s[i]), #[trigger] voter_key(s[j]))
}

/// No two entries share an address.
pub open spec fn voters_unique(s: Seq<Voter>) -> bool {
    forall|i: int, j: int| 0 <= i < j < s.len() ==> (#[trigger] s[i].addr@) != (#[trigger] s[j].addr@)
}

/// Sum of all weights, as an unbounded integer.
pub open spec fn spec_weights_sum(s: Seq<Voter>) -> int
    decreases s.len(),
{
    if s.len() == 0 {
        0
    } else {
        spec_weights_sum(s.drop_last()) + s.last().weight
    }
}

/// Sorted entries are unique: strict order separates their addresses.
pub proof fn lemma_sorted_implies_unique(s: Seq<Voter>)
    requires
        voters_sorted(s),
    ensures
        voters_unique(s),
{
    assert forall|i: int, j: int| 0 <= i < j < s.len() implies (#[trigger] s[i].addr@)
        != (#[trigger] s[j].addr@) by {
        assert(lex_lt(voter_key(s[i]), voter_key(s[j])));
        lemma_lex_asym(voter_key(s[i]), voter_key(s[j]));
    }
}

/// A weight sum is never negative.
pub proof fn lemma_sum_nonneg(s: Seq<Voter>)
    ensures
        spec_weights_sum(s) >= 0,
    decreases s.len(),
{
    if s.len() > 0 {
        lemma_sum_nonneg(s.drop_last());
    }
}

/// Inserting an entry anywhere adds exactly its weight to the sum.
pub proof fn lemma_sum_insert(s: Seq<Voter>, i: int, v: Voter)
    requires
        0 <= i <= s.len(),
    ensures
        spec_weights_sum(s.insert(i, v)) == spec_weights_sum(s) + v.weight,
    decreases s.len(),
{
    s.insert_ensures(i, v);
    if i == s.len() {
        assert(s.insert(i, v).drop_last() =~= s);
    } else {
        assert(s.insert(i, v).drop_last() =~= s.drop_last().insert(i, v));
        assert(s.insert(i, v).last() == s.last());
        lemma_sum_insert(s.drop_last(), i, v);
    }
}

/// A prefix never sums to more than the whole.
pub proof fn lemma_sum_take(s: Seq<Voter>, i: int)
    requires
        0 <= i <= s.len(),
    ensures
        spec_weights_sum(s.take(i)) <= spec_weights_sum(s),
    decreases s.len(),
{
    if i == s.len() {
        assert(s.take(i) =~= s);
    } else {
        assert(s.take(i) =~= s.drop_last().take(i));
        lemma_sum_take(s.drop_last(), i);
    }
}

/// Extending a prefix by one entry adds that entry's weight.
pub proof fn lemma_sum_take_step(s: Seq<Voter>, i: int)
    requires
        0 <= i < s.len(),
    ensures
        spec_weights_sum(s.take(i + 1)) == spec_weights_sum(s.take(i)) + s[i].weight,
{
    assert(s.take(i + 1).drop_last() =~= s.take(i));
    assert(s.take(i + 1).last() == s[i]);
}

/// Insert a voter into a sorted vector, keeping it sorted. Returns the
/// insertion index, or `None` (and leaves the vector unchanged) when an
/// entry with the same address bytes is already present.
fn voter_insert(vec: &mut Vec<Voter>, v: Voter) -> (r: Option<usize>)
    requires
        voters_sorted(old(vec)@),
    ensures
        voters_sorted(final(vec)@),
        match r {
            Some(pos) => {
                &&& 0 <= pos <= old(vec)@.len()
                &&& final(vec)@ == old(vec)@.insert(pos as int, v)
                &&& forall|i: int| 0 <= i < old(vec)@.len() ==> (#[trigger] old(vec)@[i].addr@)
                    != v.addr@
            },
            None => {
                &&& final(vec)@ == old(vec)@
                &&& exists|i: int| 0 <= i < old(vec)@.len() && (#[trigger] old(vec)@[i].addr@)
                    == v.addr@
            },
        },
{
    let ghost rows = vec@;
    let n = vec.len();
    let mut i: usize = 0;
    while i < n
        invariant
            0 <= i <= n,
            n == rows.len(),
            rows == old(vec)@,
            vec@ == rows,
            voters_sorted(rows),
            forall|j: int| 0 <= j < i ==> lex_lt(#[trigger] voter_key(rows[j]), key_of(v.addr@)),
        decreases n - i,
    {
        let c = compare_keys(vec[i].addr.as_str(), v.addr.as_str());
        match c {
            KeyCmp::Same => {
                assert(rows[i as int].addr@ == v.addr@);
                return None;
            },
            KeyCmp::Above => {
                // rows[i] is the first entry above the new key: everything
                // before is below it, everything from i on is above it.
                proof {
                    assert forall|j: int| i <= j < rows.len() implies lex_lt(
                        key_of(v.addr@),
                        #[trigger] voter_key(rows[j]),
                    ) by {
                        if j > i {
                            lemma_lex_trans(
                                key_of(v.addr@),
                                voter_key(rows[i as int]),
                                voter_key(rows[j]),
                            );
                        }
                    }
                    rows.insert_ensures(i as int, v);
                }
                vec.insert(i, v);
                proof {
                    assert forall|p: int, q: int| 0 <= p < q < vec@.len() implies lex_lt(
                        #[trigger] voter_key(vec@[p]),
                        #[trigger] voter_key(vec@[q]),
                    ) by {
                        let iv = i as int;
                        if q < iv {
                        } else if p < iv && q == iv {
                        } else if p < iv && q > iv {
                            assert(vec@[q] == rows[q - 1]);
                        } else if p == iv {
                            assert(vec@[q] == rows[q - 1]);
                        } else {
                            assert(vec@[p] == rows[p - 1] && vec@[q] == rows[q - 1]);
                        }
                    }
                    assert forall|j: int| 0 <= j < rows.len() implies (#[trigger] rows[j].addr@)
                        != v.addr@ by {
                        if j < i {
                            lemma_lex_asym(voter_key(rows[j]), key_of(v.addr@));
                        } else {
                            lemma_lex_asym(key_of(v.addr@), voter_key(rows[j]));
                        }
                    }
                }
                return Some(i);
            },
            KeyCmp::Below => {
                i = i + 1;
            },
        }
    }
    // Every existing key is below the new one: append at the end.
    proof {
        rows.insert_ensures(rows.len() as int, v);
        assert(rows.insert(rows.len() as int, v) =~= rows.push(v));
        assert forall|j: int| 0 <= j < rows.len() implies (#[trigger] rows[j].addr@)
            != v.addr@ by {
            lemma_lex_asym(voter_key(rows[j]), key_of(v.addr@));
        }
    }
    vec.push(v);
    proof {
        assert forall|p: int, q: int| 0 <= p < q < vec@.len() implies lex_lt(
            #[trigger] voter_key(vec@[p]),
            #[trigger] voter_key(vec@[q]),
        ) by {
            if q == vec@.len() - 1 {
                assert(vec@[q] == v);
            }
        }
    }
    Some(n)
}

/// During a build from a duplicate-free list, the next input entry's
/// address is fresh among what was inserted so far: everything inserted
/// came from earlier input positions, and no two positions share an
/// address.
proof fn lemma_build_fresh_addr(before: Seq<Voter>, input: Seq<Voter>, i: int)
    requires
        voters_unique(input),
        0 <= i < input.len(),
        before.to_multiset() == input.take(i).to_multiset(),
    ensures
        forall|j: int| 0 <= j < before.len() ==> (#[trigger] before[j].addr@) != input[i].addr@,
{
    assert forall|j: int| 0 <= j < before.len() implies (#[trigger] before[j].addr@)
        != input[i].addr@ by {
        crate::seqfacts::lemma_multiset_member_index(before, input.take(i), j);
        let k = choose|k: int| 0 <= k < input.take(i).len() && input.take(i)[k] == before[j];
        assert(input[k] == before[j]);
        assert(input[k].addr@ != input[i].addr@);
    }
}

/// The registry: all voters, ascending by address bytes, plus the
/// aggregate weight.
pub struct VoterRegistry {
    /// All registered voters, ascending by address bytes.
    pub voters: Vec<Voter>,
    /// Sum of all registered weights.
    pub total: u64,
}

impl VoterRegistry {
    /// A registry in good standing: sorted entries and a consistent total.
    pub open spec fn wf(&self) -> bool {
        &&& voters_sorted(self.voters@)
        &&& self.total as int == spec_weights_sum(self.voters@)
        &&& self.total > 0
    }

    /// Whether any entry carries this address.
    pub open spec fn spec_has_addr(&self, addr: Seq<char>) -> bool {
        exists|i: int| 0 <= i < self.voters@.len() && (#[trigger] self.voters@[i].addr@) == addr
    }

    /// The index of the entry carrying this address. Meaningful only when
    /// `spec_has_addr` holds; with unique entries it is the one match.
    pub open spec fn spec_index_of(&self, addr: Seq<char>) -> int {
        choose|i: int| 0 <= i < self.voters@.len() && (#[trigger] self.voters@[i].addr@) == addr
    }

    /// The weight registered for an address, if any.
    pub open spec fn spec_weight_of(&self, addr: Seq<char>) -> Option<u64> {
        if self.spec_has_addr(addr) {
            Some(self.voters@[self.spec_index_of(addr)].weight)
        } else {
            None
        }
    }

    /// With unique entries, whatever entry matches an address carries the
    /// one registered weight.
    pub proof fn lemma_weight_of_entry(&self, i: int)
        requires
            voters_unique(self.voters@),
            0 <= i < self.voters@.len(),
        ensures
            self.spec_weight_of(self.voters@[i].addr@) == Some(self.voters@[i].weight),
    {
        let addr = self.voters@[i].addr@;
        assert(self.spec_has_addr(addr));
        let j = self.spec_index_of(addr);
        if i < j {
            assert(self.voters@[i].addr@ != self.voters@[j].addr@);
        } else if j < i {
            assert(self.voters@[j].addr@ != self.voters@[i].addr@);
        }
    }

    /// No single registered weight exceeds the aggregate.
    pub proof fn lemma_weight_le_total(&self, addr: Seq<char>)
        requires
            self.total as int == spec_weights_sum(self.voters@),
        ensures
            self.spec_weight_of(addr) matches Some(w) ==> w <= self.total,
    {
        if self.spec_has_addr(addr) {
            let j = self.spec_index_of(addr);
            let pruned = self.voters@.remove(j);
            assert(pruned.insert(j, self.voters@[j]) =~= self.voters@);
            lemma_sum_insert(pruned, j, self.voters@[j]);
            lemma_sum_nonneg(pruned);
        }
    }

    /// Build the registry once, at instantiation, from the caller-supplied
    /// list. The list must not repeat an address, its weights must sum to
    /// a positive value that fits the aggregate counter, and an empty list
    /// is reported as `NoVoters`.
    pub fn new(voters: Vec<Voter>) -> (r: Result<VoterRegistry, ContractError>)
        requires
            voters_unique(voters@),
            spec_weights_sum(voters@) <= u64::MAX,
            voters@.len() > 0 ==> spec_weights_sum(voters@) > 0,
        ensures
            r is Err <==> voters@.len() == 0,
            r is Err ==> r->Err_0 == ContractError::NoVoters,
            r matches Ok(reg) ==> reg.wf() && reg.total as int == spec_weights_sum(voters@)
                && reg.voters@.len() == voters@.len()
                && reg.voters@.to_multiset() == voters@.to_multiset(),
    {
        if voters.len() == 0 {
            return Err(ContractError::NoVoters);
        }
        let ghost input = voters@;
        let n = voters.len();
        let mut sorted_voters: Vec<Voter> = Vec::new();
        let mut total: u64 = 0;
        let mut i: usize = 0;
        proof {
            assert(sorted_voters@ =~= input.take(0));
        }
        while i < n
        invariant
            0 <= i <= n,
            n == input.len(),
            voters@ == input,
            voters_unique(input),
            spec_weights_sum(input) <= u64::MAX,
            voters_sorted(sorted_voters@),
            sorted_voters@.len() == i,
            total as int == spec_weights_sum(sorted_voters@),
            total as int == spec_weights_sum(input.take(i as int)),
            sorted_voters@.to_multiset() == input.take(i as int).to_multiset(),
        decreases n - i,
        {
            let v = Voter { addr: voters[i].addr.clone(), weight: voters[i].weight };
            assert(v == input[i as int]);
            let ghost before = sorted_voters@;
            proof {
                lemma_sum_take_step(input, i as int);
                lemma_sum_take(input, i as int + 1);
                lemma_sum_nonneg(input.take(i as int));
            }
            proof {
                lemma_build_fresh_addr(before, input, i as int);
            }
            let pos = voter_insert(&mut sorted_voters, v);
            proof {
                let p = pos.unwrap();
                lemma_sum_insert(before, p as int, v);
                crate::seqfacts::lemma_to_multiset_insert(before, p as int, v);
                assert(input.take(i as int + 1).drop_last() =~= input.take(i as int));
                assert(input.take(i as int + 1) =~= input.take(i as int).push(v));
                assert(input.take(i as int).push(v).to_multiset()
                    == input.take(i as int).to_multiset().insert(v)) by {
                    broadcast use vstd::seq_lib::group_to_multiset_ensures;

                }
            }
            total = total + voters[i].weight;
            i = i + 1;
        }
        proof {
            assert(input.take(n as int) =~= input);
        }
        Ok(VoterRegistry { voters: sorted_voters, total })
    }

    /// The aggregate weight of all registered voters.
    pub fn total_weight(&self) -> (r: u64)
        ensures
            r == self.total,
    {
        self.total
    }

    /// The weight registered for an address: `Some` exactly when the
    /// address is registered, and then the registered weight.
    pub fn weight_of(&self, addr: &str) -> (r: Option<u64>)
        requires
            voters_unique(self.voters@),
        ensures
            match r {
                Some(w) => exists|i: int|
                    0 <= i < self.voters@.len() && (#[trigger] self.voters@[i].addr@) == addr@
                        && self.voters@[i].weight == w,
                None => forall|i: int|
                    0 <= i < self.voters@.len() ==> (#[trigger] self.voters@[i].addr@) != addr@,
            },
            r is Some <==> self.spec_has_addr(addr@),
            r == self.spec_weight_of(addr@),
    {
        let n = self.voters.len();
        let mut i: usize = 0;
        while i < n
            invariant
                0 <= i <= n,
                n == self.voters@.len(),
                voters_unique(self.voters@),
                forall|j: int| 0 <= j < i ==> (#[trigger] self.voters@[j].addr@) != addr@,
            decreases n - i,
        {
            let c = compare_keys(self.voters[i].addr.as_str(), addr);
            if matches!(c, KeyCmp::Same) {
                proof {
                    self.lemma_weight_of_entry(i as int);
                }
                return Some(self.voters[i].weight);
            }
            i = i + 1;
        }
        None
    }
}

} // verus!
