//! Byte-lexicographic ordering of string keys.
//!
//! The host's persistent store orders entries by raw key bytes; listings
//! and pagination cursors in this crate follow the same order, so the
//! ordered containers here sort by the UTF-8 bytes of their string keys.
use vstd::prelude::*;
use vstd::utf8::{encode_utf8, encode_utf8_decode_utf8};

verus! {

/// The raw key bytes a string key is ordered by.
pub open spec fn key_of(s: Seq<char>) -> Seq<u8> {
    encode_utf8(s)
}

/// Strict byte-lexicographic order.
pub open spec fn lex_lt(a: Seq<u8>, b: Seq<u8>) -> bool
    decreases a.len(),
{
    if a.len() == 0 {
        b.len() > 0
    } else if b.len() == 0 {
        false
    } else if a[0] < b[0] {
        true
    } else if a[0] == b[0] {
        lex_lt(a.skip(1), b.skip(1))
    } else {
        false
    }
}

/// Non-strict byte-lexicographic order.
pub open spec fn lex_le(a: Seq<u8>, b: Seq<u8>) -> bool {
    lex_lt(a, b) || a == b
}

/// Two string keys with the same bytes are the same string: UTF-8
/// encoding loses nothing.
pub proof fn lemma_key_injective(a: Seq<char>, b: Seq<char>)
    requires
        key_of(a) == key_of(b),
    ensures
        a == b,
{
    encode_utf8_decode_utf8(a);
    encode_utf8_decode_utf8(b);
}

/// Strict order is asymmetric, and in particular irreflexive.
pub proof fn lemma_lex_asym(a: Seq<u8>, b: Seq<u8>)
    requires
        lex_lt(a, b),
    ensures
        !lex_lt(b, a),
        a != b,
    decreases a.len(),
{
    if a.len() == 0 {
        assert(b.len() > 0);
    } else if b.len() > 0 && a[0] == b[0] {
        lemma_lex_asym(a.skip(1), b.skip(1));
        assert(a != b) by {
            if a == b {
                assert(a.skip(1) =~= b.skip(1));
            }
        }
    }
}

/// Strict order is transitive.
pub proof fn lemma_lex_trans(a: Seq<u8>, b: Seq<u8>, c: Seq<u8>)
    requires
        lex_lt(a, b),
        lex_lt(b, c),
    ensures
        lex_lt(a, c),
    decreases a.len(),
{
    if a.len() == 0 {
    } else {
        if a[0] < b[0] {
            if b[0] <= c[0] {
            }
        } else {
            if b[0] < c[0] {
            } else {
                lemma_lex_trans(a.skip(1), b.skip(1), c.skip(1));
            }
        }
    }
}

/// Strict order on a common-prefix remainder lifts to the whole keys.
pub proof fn lemma_lex_skip(a: Seq<u8>, b: Seq<u8>, i: int)
    requires
        0 <= i <= a.len(),
        i <= b.len(),
        forall|j: int| 0 <= j < i ==> a[j] == b[j],
    ensures
        lex_lt(a, b) <==> lex_lt(a.skip(i), b.skip(i)),
    decreases i,
{
    if i > 0 {
        assert(a.len() > 0 && b.len() > 0 && a[0] == b[0]);
        assert(forall|j: int| 0 <= j < i - 1 ==> a.skip(1)[j] == b.skip(1)[j]);
        lemma_lex_skip(a.skip(1), b.skip(1), i - 1);
        assert(a.skip(1).skip(i - 1) =~= a.skip(i));
        assert(b.skip(1).skip(i - 1) =~= b.skip(i));
        assert(lex_lt(a, b) <==> lex_lt(a.skip(1), b.skip(1)));
    } else {
        assert(a.skip(0) =~= a);
        assert(b.skip(0) =~= b);
    }
}

/// How one key stands to another.
#[derive(Clone, Copy, Debug, PartialEq, Eq, Structural)]
pub enum KeyCmp {
    Below,
    Same,
    Above,
}

/// Compare two byte strings lexicographically.
pub fn compare_bytes(a: &[u8], b: &[u8]) -> (r: KeyCmp)
    ensures
        r == KeyCmp::Below <==> lex_lt(a@, b@),
        r == KeyCmp::Same <==> a@ == b@,
        r == KeyCmp::Above <==> lex_lt(b@, a@),
{
    let a_len = a.len();
    let b_len = b.len();
    let common = if a_len < b_len {
        a_len
    } else {
        b_len
    };
    let mut i: usize = 0;
    while i < common
        invariant
            0 <= i <= common,
            common <= a@.len(),
            common <= b@.len(),
            common == if a@.len() < b@.len() {
                a@.len() as int
            } else {
                b@.len() as int
            },
            forall|j: int| 0 <= j < i ==> a@[j] == b@[j],
        decreases common - i,
    {
        let x = a[i];
        let y = b[i];
        if x < y {
            proof {
                lemma_lex_skip(a@, b@, i as int);
                lemma_lex_asym(a@, b@);
            }
            return KeyCmp::Below;
        }
        if y < x {
            proof {
                lemma_lex_skip(b@, a@, i as int);
                lemma_lex_asym(b@, a@);
            }
            return KeyCmp::Above;
        }
        i = i + 1;
    }
    if a_len == b_len {
        proof {
            assert(a@ =~= b@);
            if lex_lt(a@, b@) {
                lemma_lex_asym(a@, b@);
            }
        }
        KeyCmp::Same
    } else if a_len < b_len {
        proof {
            lemma_lex_skip(a@, b@, common as int);
            assert(a@.skip(common as int).len() == 0);
            lemma_lex_asym(a@, b@);
        }
        KeyCmp::Below
    } else {
        proof {
            lemma_lex_skip(b@, a@, common as int);
            assert(b@.skip(common as int).len() == 0);
            lemma_lex_asym(b@, a@);
        }
        KeyCmp::Above
    }
}

/// Compare two string keys by their raw bytes. Equal bytes mean the very
/// same string.
pub fn compare_keys(a: &str, b: &str) -> (r: KeyCmp)
    ensures
        r == KeyCmp::Below <==> lex_lt(key_of(a@), key_of(b@)),
        r == KeyCmp::Same <==> a@ == b@,
        r == KeyCmp::Above <==> lex_lt(key_of(b@), key_of(a@)),
{
    let r = compare_bytes(a.as_bytes(), b.as_bytes());
    proof {
        if key_of(a@) == key_of(b@) {
            lemma_key_injective(a@, b@);
        }
    }
    r
}

} // verus!
