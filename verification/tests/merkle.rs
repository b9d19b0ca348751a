use svm_spoke::errors::SettlementError;
use svm_spoke::merkle::process_proof;
use svm_spoke::merkle::verify_merkle_proof;

fn keccak(bytes: &[u8]) -> [u8; 32] {
    anchor_lang::solana_program::keccak::hash(bytes).0
}

fn commutative(a: &[u8; 32], b: &[u8; 32]) -> [u8; 32] {
    let mut input = [0u8; 64];
    if a < b {
        input[..32].copy_from_slice(a);
        input[32..].copy_from_slice(b);
    } else {
        input[..32].copy_from_slice(b);
        input[32..].copy_from_slice(a);
    }
    keccak(&input)
}

/// Builds a commutative-hash Merkle tree, promoting an odd last node, and
/// returns the root together with one sibling path per leaf.
fn build_tree(leaves: &[[u8; 32]]) -> ([u8; 32], Vec<Vec<[u8; 32]>>) {
    assert!(!leaves.is_empty());
    let mut proofs: Vec<Vec<[u8; 32]>> = vec![Vec::new(); leaves.len()];
    // positions[i] = index of leaf i's ancestor in the current level
    let mut positions: Vec<usize> = (0..leaves.len()).collect();
    let mut level: Vec<[u8; 32]> = leaves.to_vec();
    while level.len() > 1 {
        let mut next: Vec<[u8; 32]> = Vec::new();
        let mut pair_of = |idx: usize| -> (usize, Option<usize>) {
            if idx % 2 == 0 && idx + 1 < level.len() {
                (idx / 2, Some(idx + 1))
            } else if idx % 2 == 1 {
                (idx / 2, Some(idx - 1))
            } else {
                (idx / 2, None)
            }
        };
        for (leaf, pos) in positions.iter_mut().enumerate() {
            let (_, sibling) = pair_of(*pos);
            if let Some(s) = sibling {
                proofs[leaf].push(level[s]);
            }
            *pos /= 2;
        }
        let mut i = 0;
        while i < level.len() {
            if i + 1 < level.len() {
                next.push(commutative(&level[i], &level[i + 1]));
                i += 2;
            } else {
                next.push(level[i]);
                i += 1;
            }
        }
        level = next;
    }
    (level[0], proofs)
}

#[test]
fn verify_round_trips_for_small_trees() {
    for n in 1..=8usize {
        let leaves: Vec<[u8; 32]> = (0..n).map(|i| keccak(&[i as u8])).collect();
        let (root, proofs) = build_tree(&leaves);
        for (leaf, proof) in leaves.iter().zip(proofs.iter()) {
            assert!(
                verify_merkle_proof(&root, leaf, proof).is_ok(),
                "leaf proof failed in tree of {} leaves",
                n
            );
        }
    }
}

#[test]
fn verify_rejects_any_single_bit_flip() {
    let leaves: Vec<[u8; 32]> = (0..5u8).map(|i| keccak(&[i])).collect();
    let (root, proofs) = build_tree(&leaves);

    let mut bad_leaf = leaves[2];
    bad_leaf[0] ^= 1;
    assert_eq!(
        verify_merkle_proof(&root, &bad_leaf, &proofs[2]).err(),
        Some(SettlementError::InvalidMerkleProof)
    );

    let mut bad_root = root;
    bad_root[31] ^= 0x80;
    assert_eq!(
        verify_merkle_proof(&bad_root, &leaves[2], &proofs[2]).err(),
        Some(SettlementError::InvalidMerkleProof)
    );

    let mut bad_proof = proofs[2].clone();
    bad_proof[1][7] ^= 4;
    assert_eq!(
        verify_merkle_proof(&root, &leaves[2], &bad_proof).err(),
        Some(SettlementError::InvalidMerkleProof)
    );
}

#[test]
fn empty_proof_means_leaf_is_the_root() {
    let leaf = keccak(b"only");
    assert!(verify_merkle_proof(&leaf, &leaf, &Vec::new()).is_ok());
    let other = keccak(b"other");
    assert_eq!(
        verify_merkle_proof(&other, &leaf, &Vec::new()).err(),
        Some(SettlementError::InvalidMerkleProof)
    );
}

#[test]
fn process_proof_matches_manual_two_leaf_tree() {
    let l0 = keccak(b"left");
    let l1 = keccak(b"right");
    let root = commutative(&l0, &l1);
    assert_eq!(process_proof(&vec![l1], &l0), root);
    assert_eq!(process_proof(&vec![l0], &l1), root);
    assert!(verify_merkle_proof(&root, &l0, &vec![l1]).is_ok());
    assert!(verify_merkle_proof(&root, &l1, &vec![l0]).is_ok());
}
