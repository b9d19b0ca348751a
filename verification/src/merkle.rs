use vstd::prelude::*;

use crate::errors::SettlementError;
use crate::hash::commutative_keccak256;
use crate::hash::commutative_keccak256_of;

verus! {

/// The hash a proof computes: starting from the leaf hash, each sibling in
/// proof order is folded in with the commutative pairwise hash.
pub open spec fn process_proof_spec(proof_elements: Seq<[u8; 32]>, leaf: Seq<u8>) -> Seq<u8>
    decreases proof_elements.len(),
{
    if proof_elements.len() == 0 {
        leaf
    } else {
        process_proof_spec(
            proof_elements.skip(1),
            commutative_keccak256_of(leaf, proof_elements[0]@),
        )
    }
}

/// Folds the sibling hashes into the leaf hash, in proof order.
pub fn process_proof(proof_elements: &Vec<[u8; 32]>, leaf: &[u8; 32]) -> (r: [u8; 32])
    ensures
        r@ == process_proof_spec(proof_elements@, leaf@),
{
    let mut computed_hash: [u8; 32] = *leaf;
    let mut i: usize = 0;
    proof {
        assert(proof_elements@.skip(0) =~= proof_elements@);
    }
    while i < proof_elements.len()
        invariant
            0 <= i <= proof_elements@.len(),
            process_proof_spec(proof_elements@.skip(i as int), computed_hash@)
                == process_proof_spec(proof_elements@, leaf@),
        decreases proof_elements@.len() - i,
    {
        let next = commutative_keccak256(&computed_hash, &proof_elements[i]);
        proof {
            assert(proof_elements@.skip(i as int).skip(1) =~= proof_elements@.skip(i as int + 1));
            assert(proof_elements@.skip(i as int)[0] == proof_elements@[i as int]);
        }
        computed_hash = next;
        i += 1;
    }
    proof {
        assert(proof_elements@.skip(proof_elements@.len() as int)
            =~= Seq::<[u8; 32]>::empty());
    }
    computed_hash
}

/// Checks a Merkle inclusion proof. Succeeds exactly when folding the sibling
/// hashes into the leaf reproduces the root; a proof of length zero succeeds
/// exactly when the leaf is the root itself.
pub fn verify_merkle_proof(
    root: &[u8; 32],
    leaf: &[u8; 32],
    proof_elements: &Vec<[u8; 32]>,
) -> (r: Result<(), SettlementError>)
    ensures
        r is Ok <==> process_proof_spec(proof_elements@, leaf@) == root@,
        r is Err ==> r == Err::<(), SettlementError>(SettlementError::InvalidMerkleProof),
{
    let computed_root = process_proof(proof_elements, leaf);
    if crate::hash::bytes32_eq(&computed_root, root) {
        Ok(())
    } else {
        Err(SettlementError::InvalidMerkleProof)
    }
}

/// Law: a zero-length proof ties the leaf directly to the root — verification
/// then succeeds exactly for the single-leaf tree whose root is the leaf itself.
pub proof fn lemma_empty_proof_is_root(proof_elements: Seq<[u8; 32]>, leaf: Seq<u8>)
    requires
        proof_elements.len() == 0,
    ensures
        process_proof_spec(proof_elements, leaf) == leaf,
{
}

} // verus!
