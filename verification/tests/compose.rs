use sigil::boot::BootInfo;
use sigil::compose::{
    check_header_chain, compose, decode_l1_head, inspect_subproof, load_aggregation_proof_data,
    ComposeFailure, Composition, Defect, HeaderPreimage, ProofVariant, SubProof,
};
use sigil::error::{AppError, ErrorKind};
use sigil::hex::HexError;
use sigil::registry::VerifyingKeyRegistry;

fn registry() -> VerifyingKeyRegistry {
    VerifyingKeyRegistry {
        range_vkey_commitment: [0x11; 32],
        agg_vkey_hash: [0x22; 32],
        rollup_config_hash: [0x33; 32],
    }
}

fn boot_info(l1: u8, number: u64) -> BootInfo {
    BootInfo {
        l1_head: [l1; 32],
        l2_pre_root: [0xa0; 32],
        l2_post_root: [0xb0; 32],
        l2_block_number: number,
        rollup_config_hash: [0x33; 32],
    }
}

fn subproof(l1: u8, number: u64) -> SubProof {
    SubProof { variant: ProofVariant::Compressed, public_values: boot_info(l1, number).encode() }
}

fn head() -> String {
    format!("0x{}", "5a".repeat(32))
}

#[test]
fn head_decodes_to_32_bytes() {
    assert_eq!(decode_l1_head(&head()), Ok([0x5a; 32]));
    let mixed = format!("0x{}{}", "AB".repeat(16), "cd".repeat(16));
    let mut expected = [0xabu8; 32];
    for i in 16..32 {
        expected[i] = 0xcd;
    }
    assert_eq!(decode_l1_head(&mixed), Ok(expected));
}

#[test]
fn head_without_prefix_is_refused() {
    assert_eq!(decode_l1_head(&"5a".repeat(32)), Err(ComposeFailure::MissingPrefix));
    assert_eq!(decode_l1_head(""), Err(ComposeFailure::MissingPrefix));
    assert_eq!(decode_l1_head("0"), Err(ComposeFailure::MissingPrefix));
    assert_eq!(
        decode_l1_head(&format!("0X{}", "5a".repeat(32))),
        Err(ComposeFailure::MissingPrefix)
    );
}

#[test]
fn malformed_head_is_refused() {
    assert_eq!(decode_l1_head("0x1"), Err(ComposeFailure::MalformedHead(HexError::OddLength)));
    assert_eq!(
        decode_l1_head("0x12zz"),
        Err(ComposeFailure::MalformedHead(HexError::InvalidHexCharacter { c: 'z', index: 2 }))
    );
    assert_eq!(decode_l1_head("0x"), Err(ComposeFailure::HeadLength));
    assert_eq!(decode_l1_head("0x1234"), Err(ComposeFailure::HeadLength));
    assert_eq!(
        decode_l1_head(&format!("0x{}", "5a".repeat(33))),
        Err(ComposeFailure::HeadLength)
    );
}

#[test]
fn compose_keeps_the_order_of_the_subproofs() {
    let subproofs = vec![Some(subproof(3, 30)), Some(subproof(1, 10)), Some(subproof(2, 20))];
    let composed = compose(&registry(), &subproofs, &head()).unwrap();
    assert_eq!(
        composed,
        Composition {
            l1_head: [0x5a; 32],
            boot_infos: vec![boot_info(3, 30), boot_info(1, 10), boot_info(2, 20)],
        }
    );
}

#[test]
fn compose_with_head_missing_prefix_fails_with_client_error() {
    let subproofs = vec![Some(subproof(1, 10))];
    let failure = compose(&registry(), &subproofs, &"5a".repeat(32)).unwrap_err();
    assert_eq!(failure, ComposeFailure::MissingPrefix);
    let error = failure.into_error();
    assert_eq!(error.kind, ErrorKind::ClientInput);
    assert_eq!(error.message, "Invalid L1 head, no 0x prefix.");
    assert_eq!(error.status_code(), 400);
}

#[test]
fn compose_with_invalid_subproof_fails_with_client_error() {
    let subproofs = vec![Some(subproof(1, 10)), None, Some(subproof(2, 20)), None];
    let failure = compose(&registry(), &subproofs, &head()).unwrap_err();
    assert_eq!(failure, ComposeFailure::UnreadableSubProof(1));
    let error = failure.into_error();
    assert_eq!(error.kind, ErrorKind::ClientInput);
    assert_eq!(error.message, "Failed to deserialize sub-proof.");
}

#[test]
fn compose_with_nothing_to_aggregate_is_told_apart() {
    let none: Vec<Option<SubProof>> = Vec::new();
    let empty = compose(&registry(), &none, &head()).unwrap_err();
    assert_eq!(empty, ComposeFailure::NothingToAggregate);
    let unreadable = compose(&registry(), &vec![None], &head()).unwrap_err();
    assert_eq!(unreadable, ComposeFailure::UnreadableSubProof(0));
    let empty_error = empty.into_error();
    let unreadable_error = unreadable.into_error();
    assert_eq!(empty_error.kind, ErrorKind::ClientInput);
    assert_eq!(unreadable_error.kind, ErrorKind::ClientInput);
    assert_eq!(empty_error.message, "Nothing to aggregate: no sub-proofs were given.");
    assert_ne!(empty_error.message, unreadable_error.message);
}

#[test]
fn compose_looks_at_the_head_first() {
    let none: Vec<Option<SubProof>> = Vec::new();
    assert_eq!(compose(&registry(), &none, "nope"), Err(ComposeFailure::MissingPrefix));
    assert_eq!(
        compose(&registry(), &vec![None], "0x123"),
        Err(ComposeFailure::MalformedHead(HexError::OddLength))
    );
}

#[test]
fn compose_refuses_defective_subproofs() {
    let mut other_config = boot_info(1, 10);
    other_config.rollup_config_hash = [0x34; 32];
    let mismatch =
        SubProof { variant: ProofVariant::Compressed, public_values: other_config.encode() };
    let groth =
        SubProof { variant: ProofVariant::Groth16, public_values: boot_info(1, 10).encode() };
    let garbled = SubProof { variant: ProofVariant::Compressed, public_values: vec![1, 2, 3] };
    assert_eq!(
        compose(&registry(), &vec![Some(subproof(1, 1)), Some(mismatch.clone())], &head()),
        Err(ComposeFailure::DefectiveSubProof(1, Defect::ConfigMismatch))
    );
    assert_eq!(
        compose(&registry(), &vec![Some(groth.clone()), Some(mismatch.clone())], &head()),
        Err(ComposeFailure::DefectiveSubProof(0, Defect::NotCompressed))
    );
    assert_eq!(
        compose(&registry(), &vec![Some(garbled.clone())], &head()),
        Err(ComposeFailure::DefectiveSubProof(0, Defect::UnreadableBootInfo))
    );
    assert_eq!(
        compose(&registry(), &vec![Some(mismatch), None], &head()),
        Err(ComposeFailure::UnreadableSubProof(1))
    );
    assert_eq!(inspect_subproof(&registry(), &groth), Err(Defect::NotCompressed));
    assert_eq!(inspect_subproof(&registry(), &garbled), Err(Defect::UnreadableBootInfo));
    assert_eq!(inspect_subproof(&registry(), &subproof(4, 2)), Ok(boot_info(4, 2)));
}

#[test]
fn compose_failures_have_messages_of_their_own() {
    let failures = [
        ComposeFailure::MissingPrefix,
        ComposeFailure::MalformedHead(HexError::OddLength),
        ComposeFailure::MalformedHead(HexError::InvalidHexCharacter { c: 'g', index: 0 }),
        ComposeFailure::HeadLength,
        ComposeFailure::NothingToAggregate,
        ComposeFailure::UnreadableSubProof(0),
        ComposeFailure::DefectiveSubProof(0, Defect::NotCompressed),
        ComposeFailure::DefectiveSubProof(0, Defect::UnreadableBootInfo),
        ComposeFailure::DefectiveSubProof(0, Defect::ConfigMismatch),
    ];
    let errors: Vec<AppError> = failures.iter().map(|f| f.into_error()).collect();
    for (i, e) in errors.iter().enumerate() {
        assert_eq!(e.kind, ErrorKind::ClientInput);
        for other in &errors[i + 1..] {
            assert_ne!(e.message, other.message);
        }
    }
    assert_eq!(errors[1].message, "Failed to decode L1 head: odd number of digits");
    assert_eq!(errors[2].message, "Failed to decode L1 head: invalid character");
    assert_eq!(errors[3].message, "Invalid L1 head, expected 32 bytes.");
}

fn header(hash: u8, parent: u8, number: u64) -> HeaderPreimage {
    HeaderPreimage { hash: [hash; 32], parent_hash: [parent; 32], number }
}

#[test]
fn headers_bridge_head_to_boot_infos() {
    let headers = vec![header(1, 0, 100), header(2, 1, 101), header(3, 2, 102)];
    let infos = vec![boot_info(1, 10), boot_info(2, 20), boot_info(3, 30), boot_info(1, 40)];
    assert!(check_header_chain(&headers, &infos, &[3; 32]));
    assert!(check_header_chain(&headers, &Vec::new(), &[3; 32]));
    assert!(check_header_chain(&vec![header(9, 8, 5)], &vec![boot_info(9, 1)], &[9; 32]));
}

#[test]
fn broken_chains_do_not_bridge() {
    let headers = vec![header(1, 0, 100), header(2, 1, 101), header(3, 2, 102)];
    let infos = vec![boot_info(1, 10)];
    assert!(!check_header_chain(&Vec::new(), &infos, &[3; 32]));
    assert!(!check_header_chain(&headers, &infos, &[2; 32]));
    assert!(!check_header_chain(&headers, &vec![boot_info(4, 10)], &[3; 32]));
    let bad_parent = vec![header(1, 0, 100), header(2, 7, 101), header(3, 2, 102)];
    assert!(!check_header_chain(&bad_parent, &infos, &[3; 32]));
    let bad_number = vec![header(1, 0, 100), header(2, 1, 102), header(3, 2, 103)];
    assert!(!check_header_chain(&bad_number, &infos, &[3; 32]));
    let at_the_end = vec![header(1, 0, u64::MAX), header(2, 1, 0)];
    assert!(!check_header_chain(&at_the_end, &infos, &[2; 32]));
}

#[test]
fn single_proof_loads_with_its_boot_info() {
    let proof = subproof(6, 60);
    assert_eq!(
        load_aggregation_proof_data(proof.clone()),
        Some((vec![proof], vec![boot_info(6, 60)]))
    );
    let garbled = SubProof { variant: ProofVariant::Compressed, public_values: vec![0; 167] };
    assert_eq!(load_aggregation_proof_data(garbled), None);
}
