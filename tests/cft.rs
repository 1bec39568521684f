use psyguard::{CfcFingerprint, CftInclusionProof, CftRoot, CftVerifier, PsyGuardError};

fn fps(names: &[&str]) -> Vec<CfcFingerprint> {
    names.iter().map(|n| CfcFingerprint(n.to_string())).collect()
}

#[test]
fn test_cft_build_and_verify() {
    let fingerprints = vec![
        CfcFingerprint("func1".to_string()),
        CfcFingerprint("func2".to_string()),
        CfcFingerprint("func3".to_string()),
    ];

    let cft_root = CftVerifier::build_cft(&fingerprints);
    let proof = CftVerifier::generate_proof(&fingerprints, 1).unwrap();

    assert_eq!(proof.cft_root.0, cft_root.0);

    let verified = CftVerifier::verify_inclusion(&fingerprints[1], &proof).unwrap();
    assert!(verified);
}

#[test]
fn cft_inclusion_rejects_other_fingerprint() {
    let fingerprints = fps(&["func1", "func2", "func3"]);
    let proof = CftVerifier::generate_proof(&fingerprints, 1).unwrap();
    assert!(CftVerifier::verify_inclusion(&CfcFingerprint("func2".to_string()), &proof).unwrap());
    assert!(!CftVerifier::verify_inclusion(&CfcFingerprint("funcX".to_string()), &proof).unwrap());
}

#[test]
fn cft_round_trip_every_index() {
    for n in 1..=9usize {
        let names: Vec<String> = (0..n).map(|i| format!("f{}", i)).collect();
        let list: Vec<CfcFingerprint> = names.iter().map(|s| CfcFingerprint(s.clone())).collect();
        let root = CftVerifier::build_cft(&list);
        for i in 0..n {
            let proof = CftVerifier::generate_proof(&list, i).unwrap();
            assert_eq!(proof.cft_root.0, root.0);
            assert!(CftVerifier::verify_inclusion(&list[i], &proof).unwrap());
        }
    }
}

#[test]
fn cft_empty_tree_has_zero_root() {
    let root = CftVerifier::build_cft(&[]);
    assert_eq!(root.0, [0u8; 32]);
}

#[test]
fn cft_single_leaf_is_its_digest() {
    // SHA-256 of "abc".
    let expected: [u8; 32] = [
        0xba, 0x78, 0x16, 0xbf, 0x8f, 0x01, 0xcf, 0xea, 0x41, 0x41, 0x40, 0xde, 0x5d, 0xae, 0x22,
        0x23, 0xb0, 0x03, 0x61, 0xa3, 0x96, 0x17, 0x7a, 0x9c, 0xb4, 0x10, 0xff, 0x61, 0xf2, 0x00,
        0x15, 0xad,
    ];
    let root = CftVerifier::build_cft(&fps(&["abc"]));
    assert_eq!(root.0, expected);
    let proof = CftVerifier::generate_proof(&fps(&["abc"]), 0).unwrap();
    assert!(proof.merkle_path.is_empty());
}

#[test]
fn cft_proof_index_out_of_range() {
    let r = CftVerifier::generate_proof(&fps(&["a", "b"]), 2);
    assert!(matches!(r, Err(PsyGuardError::NotFound(_))));
}

#[test]
fn cft_odd_layer_promotes_last_node() {
    let list = fps(&["a", "b", "c"]);
    let proof = CftVerifier::generate_proof(&list, 2).unwrap();
    // The third leaf is promoted on the first layer, so it has one sibling.
    assert_eq!(proof.merkle_path.len(), 1);
    let proof0 = CftVerifier::generate_proof(&list, 0).unwrap();
    assert_eq!(proof0.merkle_path.len(), 2);
}

#[test]
fn cft_details_report_depth_and_source() {
    let list = fps(&["a", "b", "c", "d"]);
    let proof = CftVerifier::generate_proof(&list, 3).unwrap();
    let d = CftVerifier::verify_with_details(&list[3], &proof).unwrap();
    assert!(d.in_cft);
    assert_eq!(d.depth, 2);
    assert_eq!(d.source, "GCON.CLEAF");
    assert_eq!(d.merkle_path.unwrap().len(), 2);
    let bad = CftInclusionProof { merkle_path: proof.merkle_path.clone(), cft_root: CftRoot([0u8; 32]) };
    assert!(!CftVerifier::verify_with_details(&list[3], &bad).unwrap().in_cft);
}
