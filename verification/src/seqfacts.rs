//! Small general sequence facts the ordered containers share.
use vstd::prelude::*;
use vstd::seq_lib::group_to_multiset_ensures;

verus! {

/// Inserting anywhere in a sequence adds exactly that element to its
/// multiset of contents.
pub proof fn lemma_to_multiset_insert<A>(s: Seq<A>, pos: int, v: A)
    requires
        0 <= pos <= s.len(),
    ensures
        s.insert(pos, v).to_multiset() == s.to_multiset().insert(v),
{
    broadcast use group_to_multiset_ensures;

    let t = s.insert(pos, v);
    s.insert_ensures(pos, v);
    assert(t.remove(pos) =~= s);
    assert(t[pos] == v);
    assert(t.contains(v));
    assert(t.to_multiset().count(v) > 0);
    assert(s.to_multiset() == t.to_multiset().remove(v));
    assert(t.to_multiset() =~= s.to_multiset().insert(v)) by {
        broadcast use vstd::multiset::group_multiset_axioms;

        vstd::multiset::lemma_insert_increases_count_by_1(s.to_multiset(), v);
    }
}

/// An element of a sequence is an element of any sequence with the same
/// multiset of contents: equality of contents preserves membership.
pub proof fn lemma_multiset_member_index<A>(a: Seq<A>, b: Seq<A>, j: int)
    requires
        0 <= j < a.len(),
        a.to_multiset() == b.to_multiset(),
    ensures
        exists|k: int| 0 <= k < b.len() && b[k] == a[j],
{
    broadcast use group_to_multiset_ensures;

    assert(a.contains(a[j]));
    assert(a.to_multiset().count(a[j]) > 0);
    assert(b.contains(a[j]));
    let k = choose|k: int| 0 <= k < b.len() && b[k] == a[j];
    assert(b[k] == a[j]);
}

} // verus!
