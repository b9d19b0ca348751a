use vstd::prelude::*;

verus! {

broadcast use vstd::seq::group_seq_axioms;

/// The four bytes of `n`, least significant first.
#[verifier::opaque]
pub open spec fn u32_le_bytes(n: u32) -> Seq<u8> {
    seq![
        (n % 256) as u8,
        ((n / 256) % 256) as u8,
        ((n / 65536) % 256) as u8,
        ((n / 16777216) % 256) as u8,
    ]
}

/// The eight bytes of `n`, least significant first.
#[verifier::opaque]
pub open spec fn u64_le_bytes(n: u64) -> Seq<u8> {
    seq![
        (n % 256) as u8,
        ((n / 256) % 256) as u8,
        ((n / 65536) % 256) as u8,
        ((n / 16777216) % 256) as u8,
        ((n / 4294967296) % 256) as u8,
        ((n / 1099511627776) % 256) as u8,
        ((n / 281474976710656) % 256) as u8,
        ((n / 72057594037927936) % 256) as u8,
    ]
}

/// A `u32` encodes to four bytes.
pub proof fn lemma_u32_le_bytes_len(n: u32)
    ensures
        u32_le_bytes(n).len() == 4,
{
    reveal(u32_le_bytes);
}

/// A `u64` encodes to eight bytes.
pub proof fn lemma_u64_le_bytes_len(n: u64)
    ensures
        u64_le_bytes(n).len() == 8,
{
    reveal(u64_le_bytes);
}

/// Appends the little-endian bytes of a `u32` to `v`.
pub fn push_u32_le(v: &mut Vec<u8>, n: u32)
    ensures
        final(v)@ == old(v)@ + u32_le_bytes(n),
{
    let ghost orig = v@;
    v.push((n % 256) as u8);
    v.push(((n / 256) % 256) as u8);
    v.push(((n / 65536) % 256) as u8);
    v.push(((n / 16777216) % 256) as u8);
    proof {
        reveal(u32_le_bytes);
        assert(v@ =~= orig + u32_le_bytes(n));
    }
}

/// Appends the little-endian bytes of a `u64` to `v`.
pub fn push_u64_le(v: &mut Vec<u8>, n: u64)
    ensures
        final(v)@ == old(v)@ + u64_le_bytes(n),
{
    let ghost orig = v@;
    v.push((n % 256) as u8);
    v.push(((n / 256) % 256) as u8);
    v.push(((n / 65536) % 256) as u8);
    v.push(((n / 16777216) % 256) as u8);
    v.push(((n / 4294967296) % 256) as u8);
    v.push(((n / 1099511627776) % 256) as u8);
    v.push(((n / 281474976710656) % 256) as u8);
    v.push(((n / 72057594037927936) % 256) as u8);
    proof {
        reveal(u64_le_bytes);
        assert(v@ =~= orig + u64_le_bytes(n));
    }
}

/// Appends all bytes of `b` to `v`.
pub fn vec_extend(v: &mut Vec<u8>, b: &Vec<u8>)
    ensures
        final(v)@ == old(v)@ + b@,
{
    let ghost orig = v@;
    let mut i: usize = 0;
    while i < b.len()
        invariant
            0 <= i <= b@.len(),
            v@ == orig + b@.subrange(0, i as int),
        decreases b@.len() - i,
    {
        v.push(b[i]);
        proof {
            assert(orig + b@.subrange(0, i as int) + seq![b@[i as int]]
                =~= orig + b@.subrange(0, i as int + 1));
        }
        i += 1;
    }
    proof {
        assert(b@.subrange(0, b@.len() as int) =~= b@);
    }
}

/// The little-endian bytes of a list of `u64` values, laid end to end.
pub open spec fn seq_u64_le_bytes(s: Seq<u64>) -> Seq<u8>
    decreases s.len(),
{
    if s.len() == 0 {
        Seq::<u8>::empty()
    } else {
        seq_u64_le_bytes(s.drop_last()) + u64_le_bytes(s.last())
    }
}

/// Appends the little-endian bytes of every value in `s` to `v`.
pub fn push_seq_u64_le(v: &mut Vec<u8>, s: &Vec<u64>)
    ensures
        final(v)@ == old(v)@ + seq_u64_le_bytes(s@),
{
    let ghost orig = v@;
    let mut i: usize = 0;
    proof {
        assert(s@.subrange(0, 0) =~= Seq::<u64>::empty());
        assert(orig + Seq::<u8>::empty() =~= orig);
    }
    while i < s.len()
        invariant
            0 <= i <= s@.len(),
            v@ == orig + seq_u64_le_bytes(s@.subrange(0, i as int)),
        decreases s@.len() - i,
    {
        push_u64_le(v, s[i]);
        proof {
            let pre = s@.subrange(0, i as int);
            let cur = s@.subrange(0, i as int + 1);
            assert(cur.drop_last() =~= pre);
            assert(cur.last() == s@[i as int]);
            assert(orig + seq_u64_le_bytes(pre) + u64_le_bytes(s@[i as int])
                =~= orig + seq_u64_le_bytes(cur));
        }
        i += 1;
    }
    proof {
        assert(s@.subrange(0, s@.len() as int) =~= s@);
    }
}

/// The bytes of a list of 32-byte values, laid end to end.
pub open spec fn seq_bytes32_flat(s: Seq<[u8; 32]>) -> Seq<u8>
    decreases s.len(),
{
    if s.len() == 0 {
        Seq::<u8>::empty()
    } else {
        seq_bytes32_flat(s.drop_last()) + s.last()@
    }
}

/// Appends every 32-byte value in `s` to `v`.
pub fn push_seq_bytes32(v: &mut Vec<u8>, s: &Vec<[u8; 32]>)
    ensures
        final(v)@ == old(v)@ + seq_bytes32_flat(s@),
{
    let ghost orig = v@;
    let mut i: usize = 0;
    proof {
        assert(s@.subrange(0, 0) =~= Seq::<[u8; 32]>::empty());
        assert(orig + Seq::<u8>::empty() =~= orig);
    }
    while i < s.len()
        invariant
            0 <= i <= s@.len(),
            v@ == orig + seq_bytes32_flat(s@.subrange(0, i as int)),
        decreases s@.len() - i,
    {
        crate::hash::vec_extend_bytes32(v, &s[i]);
        proof {
            let pre = s@.subrange(0, i as int);
            let cur = s@.subrange(0, i as int + 1);
            assert(cur.drop_last() =~= pre);
            assert(cur.last() == s@[i as int]);
            assert(orig + seq_bytes32_flat(pre) + s@[i as int]@
                =~= orig + seq_bytes32_flat(cur));
        }
        i += 1;
    }
    proof {
        assert(s@.subrange(0, s@.len() as int) =~= s@);
    }
}

/// One byte per flag: one where the flag is set, zero where it is not.
pub open spec fn seq_bools_bytes(s: Seq<bool>) -> Seq<u8>
    decreases s.len(),
{
    if s.len() == 0 {
        Seq::<u8>::empty()
    } else {
        seq_bools_bytes(s.drop_last()) + seq![if s.last() { 1u8 } else { 0u8 }]
    }
}

/// Appends one byte per flag in `s` to `v`.
pub fn push_seq_bools(v: &mut Vec<u8>, s: &Vec<bool>)
    ensures
        final(v)@ == old(v)@ + seq_bools_bytes(s@),
{
    let ghost orig = v@;
    let mut i: usize = 0;
    proof {
        assert(s@.subrange(0, 0) =~= Seq::<bool>::empty());
        assert(orig + Seq::<u8>::empty() =~= orig);
    }
    while i < s.len()
        invariant
            0 <= i <= s@.len(),
            v@ == orig + seq_bools_bytes(s@.subrange(0, i as int)),
        decreases s@.len() - i,
    {
        v.push(if s[i] { 1u8 } else { 0u8 });
        proof {
            let pre = s@.subrange(0, i as int);
            let cur = s@.subrange(0, i as int + 1);
            assert(cur.drop_last() =~= pre);
            assert(cur.last() == s@[i as int]);
            assert(orig + seq_bools_bytes(pre) + seq![if s@[i as int] { 1u8 } else { 0u8 }]
                =~= orig + seq_bools_bytes(cur));
        }
        i += 1;
    }
    proof {
        assert(s@.subrange(0, s@.len() as int) =~= s@);
    }
}

/// A `u32` is recovered uniquely from its little-endian bytes.
pub proof fn lemma_u32_le_bytes_injective(x: u32, y: u32)
    requires
        u32_le_bytes(x) == u32_le_bytes(y),
    ensures
        x == y,
{
    reveal(u32_le_bytes);
    assert(u32_le_bytes(x)[0] == u32_le_bytes(y)[0]);
    assert(u32_le_bytes(x)[1] == u32_le_bytes(y)[1]);
    assert(u32_le_bytes(x)[2] == u32_le_bytes(y)[2]);
    assert(u32_le_bytes(x)[3] == u32_le_bytes(y)[3]);
    assert(x == y) by (bit_vector)
        requires
            x % 256 == y % 256,
            (x / 256) % 256 == (y / 256) % 256,
            (x / 65536) % 256 == (y / 65536) % 256,
            (x / 16777216) % 256 == (y / 16777216) % 256,
    ;
}

/// A `u64` is recovered uniquely from its little-endian bytes.
pub proof fn lemma_u64_le_bytes_injective(x: u64, y: u64)
    requires
        u64_le_bytes(x) == u64_le_bytes(y),
    ensures
        x == y,
{
    reveal(u64_le_bytes);
    assert(u64_le_bytes(x)[0] == u64_le_bytes(y)[0]);
    assert(u64_le_bytes(x)[1] == u64_le_bytes(y)[1]);
    assert(u64_le_bytes(x)[2] == u64_le_bytes(y)[2]);
    assert(u64_le_bytes(x)[3] == u64_le_bytes(y)[3]);
    assert(u64_le_bytes(x)[4] == u64_le_bytes(y)[4]);
    assert(u64_le_bytes(x)[5] == u64_le_bytes(y)[5]);
    assert(u64_le_bytes(x)[6] == u64_le_bytes(y)[6]);
    assert(u64_le_bytes(x)[7] == u64_le_bytes(y)[7]);
    assert(x == y) by (bit_vector)
        requires
            x % 256 == y % 256,
            (x / 256) % 256 == (y / 256) % 256,
            (x / 65536) % 256 == (y / 65536) % 256,
            (x / 16777216) % 256 == (y / 16777216) % 256,
            (x / 4294967296) % 256 == (y / 4294967296) % 256,
            (x / 1099511627776) % 256 == (y / 1099511627776) % 256,
            (x / 281474976710656) % 256 == (y / 281474976710656) % 256,
            (x / 72057594037927936) % 256 == (y / 72057594037927936) % 256,
    ;
}

/// Two equal concatenations with equal-length first parts have equal parts.
pub proof fn lemma_concat_parts_equal(x1: Seq<u8>, y1: Seq<u8>, x2: Seq<u8>, y2: Seq<u8>)
    requires
        x1.len() == x2.len(),
        x1 + y1 == x2 + y2,
    ensures
        x1 == x2,
        y1 == y2,
{
    assert((x1 + y1).len() == (x2 + y2).len());
    assert forall|i: int| 0 <= i < x1.len() implies x1[i] == x2[i] by {
        assert((x1 + y1)[i] == x1[i]);
        assert((x2 + y2)[i] == x2[i]);
    }
    assert(x1 =~= x2);
    assert((x1 + y1).len() == x1.len() + y1.len());
    assert((x2 + y2).len() == x2.len() + y2.len());
    assert(y1.len() == y2.len());
    assert forall|i: int| 0 <= i < y1.len() implies y1[i] == y2[i] by {
        let k = x1.len() as int + i;
        assert(0 <= k < (x1 + y1).len());
        assert((x1 + y1)[k] == y1[k - x1.len()]);
        assert((x2 + y2)[k] == y2[k - x2.len()]);
        assert((x1 + y1)[k] == (x2 + y2)[k]);
    }
    assert(y1 =~= y2);
}

/// Two equal concatenations with equal-length second parts have equal parts.
pub proof fn lemma_concat_parts_equal_suffix(x1: Seq<u8>, y1: Seq<u8>, x2: Seq<u8>, y2: Seq<u8>)
    requires
        y1.len() == y2.len(),
        x1 + y1 == x2 + y2,
    ensures
        x1 == x2,
        y1 == y2,
{
    assert((x1 + y1).len() == x1.len() + y1.len());
    assert((x2 + y2).len() == x2.len() + y2.len());
    lemma_concat_parts_equal(x1, y1, x2, y2);
}

} // verus!
