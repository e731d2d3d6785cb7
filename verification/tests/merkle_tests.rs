use csv_adapter::merkle::{MerkleProof, MerkleTree};

fn leaf(n: u8) -> csv_adapter::hash::Hash {
    csv_adapter::hash::Hash::new([n; 32])
}

#[test]
fn empty_tree_has_zero_root() {
    let tree = MerkleTree::new(vec![]);
    assert_eq!(tree.root, csv_adapter::hash::Hash::zero());
    assert_eq!(tree.depth, 0);
    assert!(tree.proof_for_leaf(0).is_none());
}

#[test]
fn two_leaf_tree_root_and_proofs() {
    let tree = MerkleTree::new(vec![leaf(1), leaf(2)]);
    assert_eq!(tree.root, csv_adapter::hash::Hash::combine(&leaf(1), &leaf(2)));
    assert_eq!(tree.depth, 1);
    for i in 0..2 {
        let proof = tree.proof_for_leaf(i).unwrap();
        assert!(proof.verify(tree.leaves[i], tree.root));
    }
}

#[test]
fn three_leaf_tree_promotes_last_leaf() {
    let tree = MerkleTree::new(vec![leaf(1), leaf(2), leaf(3)]);
    let left = csv_adapter::hash::Hash::combine(&leaf(1), &leaf(2));
    assert_eq!(tree.root, csv_adapter::hash::Hash::combine(&left, &leaf(3)));
    assert_eq!(tree.depth, 2);
    let proof = tree.proof_for_leaf(0).unwrap();
    assert_eq!(proof.siblings, vec![leaf(2), leaf(3)]);
    assert!(proof.verify(leaf(1), tree.root));
}

#[test]
fn proof_holds_one_sibling_per_level() {
    let tree = MerkleTree::new(vec![leaf(1), leaf(2), leaf(3), leaf(4)]);
    let upper = csv_adapter::hash::Hash::combine(&leaf(3), &leaf(4));
    let proof = tree.proof_for_leaf(0).unwrap();
    assert_eq!(proof, MerkleProof { siblings: vec![leaf(2), upper], leaf_index: 0, leaf_count: 4 });
    let lower = csv_adapter::hash::Hash::combine(&leaf(1), &leaf(2));
    let proof = tree.proof_for_leaf(3).unwrap();
    assert_eq!(proof.siblings, vec![leaf(3), lower]);
}

#[test]
fn every_leaf_of_a_full_tree_verifies() {
    let leaves: Vec<_> = (1..=8u8).map(leaf).collect();
    let tree = MerkleTree::new(leaves.clone());
    for i in 0..8 {
        let proof = tree.proof_for_leaf(i).unwrap();
        assert_eq!(proof.siblings.len(), 3);
        assert!(proof.verify(leaves[i], tree.root));
        assert!(!proof.verify(leaf(99), tree.root));
    }
}

#[test]
fn promoted_leaf_has_no_sibling_at_its_level() {
    let tree = MerkleTree::new(vec![leaf(1), leaf(2), leaf(3)]);
    let left = csv_adapter::hash::Hash::combine(&leaf(1), &leaf(2));
    let proof = tree.proof_for_leaf(2).unwrap();
    assert_eq!(proof.siblings, vec![left]);
    assert!(!proof.verify(leaf(3), tree.root));
    let proof = tree.proof_for_leaf(1).unwrap();
    assert_eq!(proof.siblings, vec![leaf(1), leaf(3)]);
    assert!(proof.verify(leaf(2), tree.root));
}

#[test]
fn verify_rejects_wrong_root_and_bad_index() {
    let tree = MerkleTree::new(vec![leaf(1), leaf(2)]);
    let proof = tree.proof_for_leaf(0).unwrap();
    assert!(!proof.verify(leaf(1), leaf(9)));
    let out_of_range = MerkleProof { siblings: proof.siblings.clone(), leaf_index: 5, leaf_count: 2 };
    assert!(!out_of_range.verify(leaf(1), tree.root));
    let empty = MerkleProof { siblings: vec![], leaf_index: 0, leaf_count: 0 };
    assert!(!empty.verify(leaf(1), leaf(1)));
}
