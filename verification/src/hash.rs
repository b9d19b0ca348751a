use vstd::prelude::*;

verus! {

/// The keccak-256 digest of a byte string. The digest itself is supplied by the
/// host runtime; contracts speak of it only through this name, so nothing in the
/// library claims to know its value on any given input.
pub uninterp spec fn keccak256_of(input: Seq<u8>) -> Seq<u8>;

/// Relies on `anchor_lang::solana_program::keccak::hash`: the keccak-256 digest
/// of the input, 32 bytes long, a function of the input bytes alone.
#[verifier::external_body]
pub(crate) fn keccak256(input: &Vec<u8>) -> (r: [u8; 32])
    ensures
        r@ == keccak256_of(input@),
{
    anchor_lang::solana_program::keccak::hash(input.as_slice()).0
}

/// Strict lexicographic order on byte strings.
pub open spec fn lex_lt(a: Seq<u8>, b: Seq<u8>) -> bool
    decreases a.len(),
{
    if a.len() == 0 {
        b.len() > 0
    } else if b.len() == 0 {
        false
    } else if a[0] != b[0] {
        a[0] < b[0]
    } else {
        lex_lt(a.skip(1), b.skip(1))
    }
}

/// When two equal-length strings agree on their first `i` bytes, their order is
/// decided by the remainders.
proof fn lemma_lex_lt_common_prefix(a: Seq<u8>, b: Seq<u8>, i: int)
    requires
        a.len() == b.len(),
        0 <= i <= a.len(),
        forall|j: int| 0 <= j < i ==> a[j] == b[j],
    ensures
        lex_lt(a, b) == lex_lt(a.skip(i), b.skip(i)),
    decreases i,
{
    if i > 0 {
        assert(a.skip(0) =~= a);
        assert(b.skip(0) =~= b);
        assert(a[0] == b[0]);
        assert(a.skip(1).skip(i - 1) =~= a.skip(i));
        assert(b.skip(1).skip(i - 1) =~= b.skip(i));
        assert forall|j: int| 0 <= j < i - 1 implies a.skip(1)[j] == b.skip(1)[j] by {
            assert(a.skip(1)[j] == a[j + 1]);
            assert(b.skip(1)[j] == b[j + 1]);
        }
        lemma_lex_lt_common_prefix(a.skip(1), b.skip(1), i - 1);
    } else {
        assert(a.skip(0) =~= a);
        assert(b.skip(0) =~= b);
    }
}

/// Byte-wise equality of two 32-byte values.
pub fn bytes32_eq(a: &[u8; 32], b: &[u8; 32]) -> (r: bool)
    ensures
        r == (a@ == b@),
{
    let mut i: usize = 0;
    while i < 32
        invariant
            0 <= i <= 32,
            forall|j: int| 0 <= j < i ==> a@[j] == b@[j],
        decreases 32 - i,
    {
        if a[i] != b[i] {
            return false;
        }
        i += 1;
    }
    proof {
        assert(a@ =~= b@);
    }
    true
}

/// Byte-wise lexicographic comparison of two 32-byte values.
fn bytes32_lt(a: &[u8; 32], b: &[u8; 32]) -> (r: bool)
    ensures
        r == lex_lt(a@, b@),
{
    let mut i: usize = 0;
    while i < 32
        invariant
            0 <= i <= 32,
            forall|j: int| 0 <= j < i ==> a@[j] == b@[j],
        decreases 32 - i,
    {
        if a[i] < b[i] {
            proof {
                lemma_lex_lt_common_prefix(a@, b@, i as int);
                assert(a@.skip(i as int)[0] == a@[i as int]);
                assert(b@.skip(i as int)[0] == b@[i as int]);
            }
            return true;
        }
        if a[i] > b[i] {
            proof {
                lemma_lex_lt_common_prefix(a@, b@, i as int);
                assert(a@.skip(i as int)[0] == a@[i as int]);
                assert(b@.skip(i as int)[0] == b@[i as int]);
            }
            return false;
        }
        i += 1;
    }
    proof {
        lemma_lex_lt_common_prefix(a@, b@, 32);
        assert(a@.skip(32).len() == 0);
    }
    false
}

/// Appends all 32 bytes of `b` to `v`.
pub(crate) fn vec_extend_bytes32(v: &mut Vec<u8>, b: &[u8; 32])
    ensures
        final(v)@ == old(v)@ + b@,
{
    let ghost orig = v@;
    let mut i: usize = 0;
    while i < 32
        invariant
            0 <= i <= 32,
            v@ == orig + b@.subrange(0, i as int),
        decreases 32 - i,
    {
        v.push(b[i]);
        proof {
            assert(orig + b@.subrange(0, i as int) + seq![b@[i as int]]
                =~= orig + b@.subrange(0, i as int + 1));
        }
        i += 1;
    }
    proof {
        assert(b@.subrange(0, 32) =~= b@);
    }
}

/// The digest of two 32-byte values laid end to end.
pub open spec fn efficient_keccak256_of(a: Seq<u8>, b: Seq<u8>) -> Seq<u8> {
    keccak256_of(a + b)
}

/// Hashes the 64-byte concatenation of `a` then `b`.
fn efficient_keccak256(a: &[u8; 32], b: &[u8; 32]) -> (r: [u8; 32])
    ensures
        r@ == efficient_keccak256_of(a@, b@),
{
    let mut input: Vec<u8> = Vec::new();
    vec_extend_bytes32(&mut input, a);
    vec_extend_bytes32(&mut input, b);
    proof {
        assert(input@ =~= a@ + b@);
    }
    keccak256(&input)
}

/// The commutative pairwise hash: the two operands are fed to the digest in
/// ascending lexicographic order of their raw bytes, so the caller need not know
/// which of the two was the left child.
pub open spec fn commutative_keccak256_of(a: Seq<u8>, b: Seq<u8>) -> Seq<u8> {
    if lex_lt(a, b) {
        efficient_keccak256_of(a, b)
    } else {
        efficient_keccak256_of(b, a)
    }
}

/// Combines two sibling hashes with the commutative pairwise hash.
pub fn commutative_keccak256(a: &[u8; 32], b: &[u8; 32]) -> (r: [u8; 32])
    ensures
        r@ == commutative_keccak256_of(a@, b@),
{
    if bytes32_lt(a, b) {
        efficient_keccak256(a, b)
    } else {
        efficient_keccak256(b, a)
    }
}

} // verus!
