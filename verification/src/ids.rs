//! Proposal ids as storage keys.
//!
//! The host's store iterates keys in byte order, so numeric ids are laid
//! out as eight big-endian bytes: a fixed-width, order-preserving encoding
//! under which ascending and descending range scans match numeric order.
use vstd::arithmetic::power::pow;
use vstd::prelude::*;

verus! {

/// The number a big-endian byte string stands for.
pub open spec fn spec_decode(bytes: Seq<u8>) -> int
    decreases bytes.len(),
{
    if bytes.len() == 0 {
        0
    } else {
        spec_decode(bytes.drop_last()) * 256 + bytes.last()
    }
}

/// The eight big-endian bytes of an id.
pub open spec fn spec_encode_id(id: u64) -> Seq<u8> {
    seq![
        (id >> 56) as u8,
        (id >> 48) as u8,
        (id >> 40) as u8,
        (id >> 32) as u8,
        (id >> 24) as u8,
        (id >> 16) as u8,
        (id >> 8) as u8,
        id as u8,
    ]
}

/// A byte string of length `n` decodes to less than `256^n`.
pub proof fn lemma_decode_bound(bytes: Seq<u8>)
    ensures
        0 <= spec_decode(bytes) < pow(256, bytes.len()),
    decreases bytes.len(),
{
    if bytes.len() == 0 {
        assert(pow(256, 0) == 1) by {
            vstd::arithmetic::power::lemma_pow0(256);
        }
    } else {
        lemma_decode_bound(bytes.drop_last());
        let d = spec_decode(bytes.drop_last());
        let n = (bytes.len() - 1) as nat;
        assert(pow(256, bytes.len()) == 256 * pow(256, n)) by {
            vstd::arithmetic::power::lemma_pow_adds(256, 1, n);
            vstd::arithmetic::power::lemma_pow1(256);
        }
        assert(d * 256 + bytes.last() < 256 * pow(256, n)) by (nonlinear_arith)
            requires
                0 <= d < pow(256, n),
                0 <= bytes.last() < 256,
        {
        }
    }
}

/// Read an id out of its eight-byte storage key, exactly as the key was
/// written: most significant byte first.
pub fn decode_id(bytes: &[u8]) -> (r: u64)
    requires
        bytes@.len() == 8,
    ensures
        r == spec_decode(bytes@),
{
    let mut id: u64 = 0;
    let mut i: usize = 0;
    proof {
        assert(bytes@.take(0) =~= Seq::<u8>::empty());
    }
    while i < 8
        invariant
            0 <= i <= 8,
            bytes@.len() == 8,
            id == spec_decode(bytes@.take(i as int)),
        decreases 8 - i,
    {
        proof {
            lemma_decode_bound(bytes@.take(i as int));
            assert(pow(256, 8) == 0x1_0000_0000_0000_0000 && pow(256, 7)
                == 0x100_0000_0000_0000) by {
                reveal_with_fuel(vstd::arithmetic::power::pow, 9);
            }
            if i < 7 {
                assert(pow(256, i as nat) <= pow(256, 7)) by {
                    vstd::arithmetic::power::lemma_pow_increases(256, i as nat, 7);
                }
                assert(pow(256, 7) == 0x100_0000_0000_0000) by {
                    reveal_with_fuel(vstd::arithmetic::power::pow, 9);
                }
            } else {
                assert(pow(256, i as nat) == pow(256, 7));
            }
            assert(id * 256 + 255 < 0x1_0000_0000_0000_0000) by (nonlinear_arith)
                requires
                    0 <= id,
                    (id as int) < pow(256, 7),
                    pow(256, 7) == 0x100_0000_0000_0000,
            {
            }
            assert(bytes@.take(i as int + 1).drop_last() =~= bytes@.take(i as int));
        }
        id = id * 256 + (bytes[i] as u64);
        i = i + 1;
    }
    proof {
        assert(bytes@.take(8) =~= bytes@);
    }
    id
}

/// Write an id as its eight-byte storage key, most significant byte first.
pub fn encode_id(id: u64) -> (r: Vec<u8>)
    ensures
        r@ == spec_encode_id(id),
{
    let mut out: Vec<u8> = Vec::new();
    out.push((id >> 56) as u8);
    out.push((id >> 48) as u8);
    out.push((id >> 40) as u8);
    out.push((id >> 32) as u8);
    out.push((id >> 24) as u8);
    out.push((id >> 16) as u8);
    out.push((id >> 8) as u8);
    out.push(id as u8);
    proof {
        assert(out@ =~= spec_encode_id(id));
    }
    out
}

/// Writing a key and reading it back yields the id unchanged.
pub proof fn lemma_id_round_trip(id: u64)
    ensures
        spec_decode(spec_encode_id(id)) == id,
{
    let b0 = (id >> 56) as u8;
    let b1 = (id >> 48) as u8;
    let b2 = (id >> 40) as u8;
    let b3 = (id >> 32) as u8;
    let b4 = (id >> 24) as u8;
    let b5 = (id >> 16) as u8;
    let b6 = (id >> 8) as u8;
    let b7 = id as u8;
    let s = spec_encode_id(id);
    let t1 = seq![b0];
    let t2 = seq![b0, b1];
    let t3 = seq![b0, b1, b2];
    let t4 = seq![b0, b1, b2, b3];
    let t5 = seq![b0, b1, b2, b3, b4];
    let t6 = seq![b0, b1, b2, b3, b4, b5];
    let t7 = seq![b0, b1, b2, b3, b4, b5, b6];
    assert(t1.drop_last() =~= Seq::<u8>::empty());
    assert(t2.drop_last() =~= t1);
    assert(t3.drop_last() =~= t2);
    assert(t4.drop_last() =~= t3);
    assert(t5.drop_last() =~= t4);
    assert(t6.drop_last() =~= t5);
    assert(t7.drop_last() =~= t6);
    assert(s.drop_last() =~= t7);
    assert(spec_decode(Seq::<u8>::empty()) == 0);
    assert(spec_decode(t1) == b0);
    assert(spec_decode(t2) == spec_decode(t1) * 256 + b1);
    assert(spec_decode(t3) == spec_decode(t2) * 256 + b2);
    assert(spec_decode(t4) == spec_decode(t3) * 256 + b3);
    assert(spec_decode(t5) == spec_decode(t4) * 256 + b4);
    assert(spec_decode(t6) == spec_decode(t5) * 256 + b5);
    assert(spec_decode(t7) == spec_decode(t6) * 256 + b6);
    assert(spec_decode(s) == spec_decode(t7) * 256 + b7);
    assert((((((((((id >> 56) as u8) as int * 256 + ((id >> 48) as u8) as int) * 256 + ((id >> 40) as u8) as int) * 256 + ((id >> 32) as u8) as int) * 256 + ((id >> 24) as u8) as int) * 256 + ((id >> 16) as u8) as int) * 256 + ((id >> 8) as u8) as int) * 256 + (id as u8) as int) == id) by (bit_vector);
}

/// The big-endian layout is order-preserving: byte order of two keys
/// matches numeric order of the two ids, so ascending and descending
/// range scans over the store walk ids in numeric order.
pub proof fn lemma_encode_preserves_order(a: u64, b: u64)
    ensures
        crate::keyorder::lex_lt(spec_encode_id(a), spec_encode_id(b)) <==> a < b,
{
    let sa = spec_encode_id(a);
    let sb = spec_encode_id(b);
    assert(sa.skip(8) =~= Seq::<u8>::empty());
    assert(sb.skip(8) =~= Seq::<u8>::empty());
    assert(!crate::keyorder::lex_lt(sa.skip(8), sb.skip(8)));
    assert(sa.skip(7)[0] == sa[7] && sb.skip(7)[0] == sb[7]);
    assert(sa.skip(7).skip(1) =~= sa.skip(8));
    assert(sb.skip(7).skip(1) =~= sb.skip(8));
    assert(crate::keyorder::lex_lt(sa.skip(7), sb.skip(7)) <==> (sa[7] < sb[7] || (sa[7] == sb[7] && crate::keyorder::lex_lt(sa.skip(8), sb.skip(8)))));
    assert(sa.skip(6)[0] == sa[6] && sb.skip(6)[0] == sb[6]);
    assert(sa.skip(6).skip(1) =~= sa.skip(7));
    assert(sb.skip(6).skip(1) =~= sb.skip(7));
    assert(crate::keyorder::lex_lt(sa.skip(6), sb.skip(6)) <==> (sa[6] < sb[6] || (sa[6] == sb[6] && crate::keyorder::lex_lt(sa.skip(7), sb.skip(7)))));
    assert(sa.skip(5)[0] == sa[5] && sb.skip(5)[0] == sb[5]);
    assert(sa.skip(5).skip(1) =~= sa.skip(6));
    assert(sb.skip(5).skip(1) =~= sb.skip(6));
    assert(crate::keyorder::lex_lt(sa.skip(5), sb.skip(5)) <==> (sa[5] < sb[5] || (sa[5] == sb[5] && crate::keyorder::lex_lt(sa.skip(6), sb.skip(6)))));
    assert(sa.skip(4)[0] == sa[4] && sb.skip(4)[0] == sb[4]);
    assert(sa.skip(4).skip(1) =~= sa.skip(5));
    assert(sb.skip(4).skip(1) =~= sb.skip(5));
    assert(crate::keyorder::lex_lt(sa.skip(4), sb.skip(4)) <==> (sa[4] < sb[4] || (sa[4] == sb[4] && crate::keyorder::lex_lt(sa.skip(5), sb.skip(5)))));
    assert(sa.skip(3)[0] == sa[3] && sb.skip(3)[0] == sb[3]);
    assert(sa.skip(3).skip(1) =~= sa.skip(4));
    assert(sb.skip(3).skip(1) =~= sb.skip(4));
    assert(crate::keyorder::lex_lt(sa.skip(3), sb.skip(3)) <==> (sa[3] < sb[3] || (sa[3] == sb[3] && crate::keyorder::lex_lt(sa.skip(4), sb.skip(4)))));
    assert(sa.skip(2)[0] == sa[2] && sb.skip(2)[0] == sb[2]);
    assert(sa.skip(2).skip(1) =~= sa.skip(3));
    assert(sb.skip(2).skip(1) =~= sb.skip(3));
    assert(crate::keyorder::lex_lt(sa.skip(2), sb.skip(2)) <==> (sa[2] < sb[2] || (sa[2] == sb[2] && crate::keyorder::lex_lt(sa.skip(3), sb.skip(3)))));
    assert(sa.skip(1)[0] == sa[1] && sb.skip(1)[0] == sb[1]);
    assert(sa.skip(1).skip(1) =~= sa.skip(2));
    assert(sb.skip(1).skip(1) =~= sb.skip(2));
    assert(crate::keyorder::lex_lt(sa.skip(1), sb.skip(1)) <==> (sa[1] < sb[1] || (sa[1] == sb[1] && crate::keyorder::lex_lt(sa.skip(2), sb.skip(2)))));
    assert(sa.skip(0)[0] == sa[0] && sb.skip(0)[0] == sb[0]);
    assert(sa.skip(0).skip(1) =~= sa.skip(1));
    assert(sb.skip(0).skip(1) =~= sb.skip(1));
    assert(crate::keyorder::lex_lt(sa.skip(0), sb.skip(0)) <==> (sa[0] < sb[0] || (sa[0] == sb[0] && crate::keyorder::lex_lt(sa.skip(1), sb.skip(1)))));
    assert(sa.skip(0) =~= sa);
    assert(sb.skip(0) =~= sb);
    assert(((((a >> 56) as u8) < ((b >> 56) as u8) || (((a >> 56) as u8) == ((b >> 56) as u8) && (((a >> 48) as u8) < ((b >> 48) as u8) || (((a >> 48) as u8) == ((b >> 48) as u8) && (((a >> 40) as u8) < ((b >> 40) as u8) || (((a >> 40) as u8) == ((b >> 40) as u8) && (((a >> 32) as u8) < ((b >> 32) as u8) || (((a >> 32) as u8) == ((b >> 32) as u8) && (((a >> 24) as u8) < ((b >> 24) as u8) || (((a >> 24) as u8) == ((b >> 24) as u8) && (((a >> 16) as u8) < ((b >> 16) as u8) || (((a >> 16) as u8) == ((b >> 16) as u8) && (((a >> 8) as u8) < ((b >> 8) as u8) || (((a >> 8) as u8) == ((b >> 8) as u8) && ((a as u8) < (b as u8) || ((a as u8) == (b as u8) && false))))))))))))))))) <==> a < b) by (bit_vector);
}

} // verus!
