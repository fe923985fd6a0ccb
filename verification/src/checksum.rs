//! The frame integrity byte: an XOR reduction over the checksum-covered
//! range of a frame, the bytes from the length byte through the last byte
//! before the end marker.

use vstd::prelude::*;

verus! {

/// XOR of all bytes of `s`.
pub open spec fn xor_fold(s: Seq<u8>) -> u8
    decreases s.len(),
{
    if s.len() == 0 {
        0u8
    } else {
        xor_fold(s.drop_last()) ^ s.last()
    }
}

/// The checksum of a frame `s`: XOR of the bytes at indices `1 ..= s.len() - 3`,
/// that is everything except the start marker, the end marker and the checksum
/// byte itself.
pub open spec fn checksum_spec(s: Seq<u8>) -> u8
    recommends
        s.len() >= 3,
{
    xor_fold(s.subrange(1, s.len() - 2))
}

/// `s` with its last byte replaced by the checksum of `s`. Every mutator of a
/// frame leaves the buffer in this shape.
pub open spec fn with_checksum(s: Seq<u8>) -> Seq<u8>
    recommends
        s.len() >= 3,
{
    s.update(s.len() - 1, checksum_spec(s))
}

/// Replacing one byte of `s` replaces its XOR contribution: the fold of the
/// updated sequence is the old fold with the old byte taken out and the new
/// byte folded in.
pub proof fn lemma_xor_fold_update(s: Seq<u8>, j: int, v: u8)
    requires
        0 <= j < s.len(),
    ensures
        xor_fold(s.update(j, v)) == xor_fold(s) ^ s[j] ^ v,
    decreases s.len(),
{
    let t = s.update(j, v);
    let x = xor_fold(s.drop_last());
    if j == s.len() - 1 {
        assert(t.drop_last() =~= s.drop_last());
        let b = s[j];
        assert((x ^ b) ^ b ^ v == x ^ v) by (bit_vector);
    } else {
        assert(t.drop_last() =~= s.drop_last().update(j, v));
        lemma_xor_fold_update(s.drop_last(), j, v);
        let b = s.drop_last()[j];
        let l = s.last();
        assert(((x ^ b) ^ v) ^ l == ((x ^ l) ^ b) ^ v) by (bit_vector);
        assert(s.drop_last()[j] == s[j]);
        assert(t.last() == s.last());
    }
}

/// The checksum never covers the checksum byte itself: rewriting the last
/// byte of a frame leaves the checksum of the frame unchanged.
pub proof fn lemma_checksum_ignores_last(s: Seq<u8>, v: u8)
    requires
        s.len() >= 3,
    ensures
        checksum_spec(s.update(s.len() - 1, v)) == checksum_spec(s),
{
    assert(s.update(s.len() - 1, v).subrange(1, s.len() - 2) =~= s.subrange(
        1,
        s.len() - 2,
    ));
}

/// Replacing a byte inside the covered range `1 ..= s.len() - 3` XORs its old
/// and new values into the checksum.
pub proof fn lemma_checksum_update_covered(s: Seq<u8>, j: int, v: u8)
    requires
        s.len() >= 3,
        1 <= j <= s.len() - 3,
    ensures
        checksum_spec(s.update(j, v)) == checksum_spec(s) ^ s[j] ^ v,
{
    let r = s.subrange(1, s.len() - 2);
    assert(s.update(j, v).subrange(1, s.len() - 2) =~= r.update(j - 1, v));
    lemma_xor_fold_update(r, j - 1, v);
    assert(r[j - 1] == s[j]);
}

/// Computes the checksum of `bytes`: the XOR of `bytes[1 ..= bytes.len() - 3]`.
pub fn compute_checksum(bytes: &[u8]) -> (r: u8)
    requires
        bytes@.len() >= 3,
    ensures
        r == checksum_spec(bytes@),
{
    let n: usize = bytes.len();
    let mut acc: u8 = 0;
    let mut i: usize = 1;
    proof {
        assert(bytes@.subrange(1, 1) =~= Seq::<u8>::empty());
    }
    while i < n - 2
        invariant
            1 <= i <= n - 2,
            3 <= n == bytes@.len(),
            acc == xor_fold(bytes@.subrange(1, i as int)),
        decreases n - 2 - i,
    {
        proof {
            assert(bytes@.subrange(1, i + 1).drop_last() =~= bytes@.subrange(1, i as int));
            assert(bytes@.subrange(1, i + 1).last() == bytes@[i as int]);
        }
        acc = acc ^ bytes[i];
        i = i + 1;
    }
    acc
}

} // verus!
