use alloy_primitives::hex;
use sigil::api::{
    get_proof_status, request_agg_proof, request_mock_agg_proof, request_mock_span_proof,
    request_span_proof, AggAction, AggEvent, AggStep, InlineProof, SpanAction, SpanEvent,
    SpanProofRequest, SpanStep, DEFAULT_PORT, REQUEST_BODY_LIMIT,
};
use sigil::boot::BootInfo;
use sigil::compose::{AggregationInput, Composition, HeaderPreimage, ProofVariant, SubProof};
use sigil::dispatch::{
    advance_job, allocate_job, encoding_for, proving_plan, send_proof, Circuit, ProofEncoding,
    ProofMode, ProvingPlan, TaskAction, TaskEvent,
};
use sigil::error::{AppError, ErrorKind};
use sigil::job_id::parse_job_id;
use sigil::registry::VerifyingKeyRegistry;
use sigil::status::{JobStatus, ProofStatus, ProofType};
use sigil::store::ProofStore;

fn registry() -> VerifyingKeyRegistry {
    VerifyingKeyRegistry {
        range_vkey_commitment: [0x11; 32],
        agg_vkey_hash: [0x22; 32],
        rollup_config_hash: [0x33; 32],
    }
}

fn boot_info(l1: u8) -> BootInfo {
    BootInfo {
        l1_head: [l1; 32],
        l2_pre_root: [0xa0; 32],
        l2_post_root: [0xb0; 32],
        l2_block_number: 77,
        rollup_config_hash: [0x33; 32],
    }
}

fn subproof(l1: u8) -> Option<SubProof> {
    Some(SubProof { variant: ProofVariant::Compressed, public_values: boot_info(l1).encode() })
}

fn head() -> String {
    format!("0x{}", "03".repeat(32))
}

fn headers() -> Vec<HeaderPreimage> {
    vec![
        HeaderPreimage { hash: [1; 32], parent_hash: [0; 32], number: 10 },
        HeaderPreimage { hash: [2; 32], parent_hash: [1; 32], number: 11 },
        HeaderPreimage { hash: [3; 32], parent_hash: [2; 32], number: 12 },
    ]
}

fn path_of(proof_id: &[u8]) -> String {
    hex::encode(proof_id)
}

#[test]
fn span_request_is_answered_with_a_job_and_ends_fulfilled() {
    let mut store = ProofStore::new();
    let payload = SpanProofRequest { start: 12500, end: 12501 };
    let steps = [
        (SpanEvent::Received, SpanStep::CreateFetcher),
        (SpanEvent::Completed(SpanStep::CreateFetcher), SpanStep::ResolveHostArgs),
        (SpanEvent::Completed(SpanStep::ResolveHostArgs), SpanStep::SpawnWitnessGen),
        (SpanEvent::Completed(SpanStep::SpawnWitnessGen), SpanStep::FinishWitnessGen),
        (SpanEvent::Completed(SpanStep::FinishWitnessGen), SpanStep::LoadStdin),
    ];
    for (event, next) in steps {
        assert_eq!(request_span_proof(&mut store, &payload, event), SpanAction::Perform(next));
        assert_eq!(store.len(), 0);
    }
    let ticket = match request_span_proof(
        &mut store,
        &payload,
        SpanEvent::Completed(SpanStep::LoadStdin),
    ) {
        SpanAction::Dispatched(ticket) => ticket,
        other => panic!("no job: {:?}", other),
    };
    assert_eq!(ticket.kind, ProofType::Span);
    assert_eq!(parse_job_id(&ticket.proof_id), Some(ticket.job));
    assert_eq!(store.len(), 1);
    let path = path_of(&ticket.proof_id);
    assert_eq!(
        get_proof_status(&store, &path),
        Ok(ProofStatus { fulfillment_status: 2, execution_status: 1, proof: vec![] })
    );
    assert_eq!(
        advance_job(&mut store, ticket.job, TaskEvent::Started),
        TaskAction::ConfigureAndProve(ProvingPlan {
            circuit: Circuit::Range,
            mode: ProofMode::Compressed
        })
    );
    assert_eq!(
        advance_job(&mut store, ticket.job, TaskEvent::Proved(ProofVariant::Compressed)),
        TaskAction::Encode(ProofEncoding::Full)
    );
    assert_eq!(
        get_proof_status(&store, &path).unwrap(),
        ProofStatus { fulfillment_status: 2, execution_status: 1, proof: vec![] }
    );
    assert_eq!(
        advance_job(&mut store, ticket.job, TaskEvent::Encoded(vec![0xde, 0xad])),
        TaskAction::Finished
    );
    let status = get_proof_status(&store, &path).unwrap();
    assert_eq!(status.fulfillment_status, 3);
    assert_eq!(status.execution_status, 2);
    assert!(!status.proof.is_empty());
    assert_eq!(status.proof, vec![0xde, 0xad]);
}

#[test]
fn span_request_with_bad_range_is_refused_whatever_happens() {
    let mut store = ProofStore::new();
    let events = [
        SpanEvent::Received,
        SpanEvent::Completed(SpanStep::LoadStdin),
        SpanEvent::Failed(SpanStep::CreateFetcher, "x".to_string()),
        SpanEvent::InlineProved(vec![1]),
    ];
    for payload in [SpanProofRequest { start: 5, end: 5 }, SpanProofRequest { start: 6, end: 5 }] {
        for event in events.clone() {
            let expected = SpanAction::Reject(AppError {
                kind: ErrorKind::ClientInput,
                message: "Invalid block range: end must be greater than start.".to_string(),
            });
            assert_eq!(request_span_proof(&mut store, &payload, event.clone()), expected);
            assert_eq!(request_mock_span_proof(&payload, event), expected);
        }
    }
    assert_eq!(store.len(), 0);
}

#[test]
fn span_failures_end_the_request_without_a_job() {
    let mut store = ProofStore::new();
    let payload = SpanProofRequest { start: 1, end: 2 };
    let cases = [
        (SpanStep::CreateFetcher, ErrorKind::Upstream, "boom", "boom"),
        (SpanStep::ResolveHostArgs, ErrorKind::Upstream, "Failed to get host CLI args: boom", "boom"),
        (
            SpanStep::SpawnWitnessGen,
            ErrorKind::WitnessGeneration,
            "Failed to spawn witness generation: boom",
            "boom",
        ),
        (
            SpanStep::FinishWitnessGen,
            ErrorKind::WitnessGeneration,
            "Failed to generate witness: boom",
            "Failed to generate witness: boom",
        ),
        (
            SpanStep::LoadStdin,
            ErrorKind::WitnessGeneration,
            "Failed to get proof stdin: boom",
            "boom",
        ),
        (SpanStep::ProveInline, ErrorKind::Backend, "boom", "boom"),
    ];
    for (step, kind, queued, inline) in cases {
        let event = SpanEvent::Failed(step, "boom".to_string());
        assert_eq!(
            request_span_proof(&mut store, &payload, event.clone()),
            SpanAction::Reject(AppError { kind, message: queued.to_string() })
        );
        assert_eq!(
            request_mock_span_proof(&payload, event),
            SpanAction::Reject(AppError { kind, message: inline.to_string() })
        );
    }
    assert_eq!(store.len(), 0);
}

#[test]
fn mock_span_request_proves_within_the_request() {
    let payload = SpanProofRequest { start: 1, end: 2 };
    assert_eq!(
        request_mock_span_proof(&payload, SpanEvent::Received),
        SpanAction::Perform(SpanStep::CreateFetcher)
    );
    assert_eq!(
        request_mock_span_proof(&payload, SpanEvent::Completed(SpanStep::LoadStdin)),
        SpanAction::ProveInline(InlineProof {
            plan: ProvingPlan { circuit: Circuit::Range, mode: ProofMode::Compressed },
            encoding: ProofEncoding::Full,
        })
    );
    assert_eq!(
        request_mock_span_proof(&payload, SpanEvent::InlineProved(vec![4, 5])),
        SpanAction::RespondInline(ProofStatus {
            fulfillment_status: 3,
            execution_status: 0,
            proof: vec![4, 5]
        })
    );
}

#[test]
fn events_of_the_other_route_are_refused() {
    let mut store = ProofStore::new();
    let payload = SpanProofRequest { start: 1, end: 2 };
    let unexpected = AppError { kind: ErrorKind::Backend, message: "Unexpected event.".to_string() };
    assert_eq!(
        request_span_proof(&mut store, &payload, SpanEvent::InlineProved(vec![1])),
        SpanAction::Reject(unexpected.clone())
    );
    assert_eq!(
        request_span_proof(&mut store, &payload, SpanEvent::Completed(SpanStep::ProveInline)),
        SpanAction::Reject(unexpected.clone())
    );
    assert_eq!(
        request_mock_span_proof(&payload, SpanEvent::Completed(SpanStep::ProveInline)),
        SpanAction::Reject(unexpected.clone())
    );
    assert_eq!(
        request_agg_proof(
            &mut store,
            &registry(),
            &vec![subproof(1)],
            &head(),
            AggEvent::InlineProved(vec![1])
        ),
        AggAction::Reject(unexpected)
    );
    assert_eq!(store.len(), 0);
}

#[test]
fn agg_request_is_answered_with_a_job() {
    let mut store = ProofStore::new();
    let subproofs = vec![subproof(2), subproof(1)];
    let composed =
        Composition { l1_head: [3; 32], boot_infos: vec![boot_info(2), boot_info(1)] };
    assert_eq!(
        request_agg_proof(&mut store, &registry(), &subproofs, &head(), AggEvent::Received),
        AggAction::CreateFetcher
    );
    assert_eq!(
        request_agg_proof(&mut store, &registry(), &subproofs, &head(), AggEvent::FetcherCreated),
        AggAction::ResolveHeaders(composed)
    );
    assert_eq!(
        request_agg_proof(
            &mut store,
            &registry(),
            &subproofs,
            &head(),
            AggEvent::HeadersResolved(headers())
        ),
        AggAction::AssembleStdin(AggregationInput {
            boot_infos: vec![boot_info(2), boot_info(1)],
            headers: headers(),
            range_vkey_commitment: [0x11; 32],
            l1_head: [3; 32],
        })
    );
    assert_eq!(store.len(), 0);
    let ticket = match request_agg_proof(
        &mut store,
        &registry(),
        &subproofs,
        &head(),
        AggEvent::StdinAssembled,
    ) {
        AggAction::Dispatched(ticket) => ticket,
        other => panic!("no job: {:?}", other),
    };
    assert_eq!(ticket.kind, ProofType::Agg);
    assert_eq!(store.len(), 1);
    assert_eq!(
        advance_job(&mut store, ticket.job, TaskEvent::Started),
        TaskAction::ConfigureAndProve(ProvingPlan {
            circuit: Circuit::Aggregation,
            mode: ProofMode::Groth16
        })
    );
    assert_eq!(
        advance_job(&mut store, ticket.job, TaskEvent::Proved(ProofVariant::Groth16)),
        TaskAction::Encode(ProofEncoding::Payload)
    );
    assert_eq!(
        advance_job(&mut store, ticket.job, TaskEvent::Encoded(vec![1, 2, 3])),
        TaskAction::Finished
    );
    assert_eq!(
        get_proof_status(&store, &path_of(&ticket.proof_id)),
        Ok(ProofStatus { fulfillment_status: 3, execution_status: 2, proof: vec![1, 2, 3] })
    );
}

#[test]
fn agg_request_with_head_missing_prefix_creates_no_job() {
    let mut store = ProofStore::new();
    let events = [
        AggEvent::Received,
        AggEvent::FetcherCreated,
        AggEvent::HeadersResolved(headers()),
        AggEvent::StdinAssembled,
        AggEvent::InlineProved(vec![1]),
        AggEvent::Failed(AggStep::CreateFetcher, "x".to_string()),
    ];
    let expected = AggAction::Reject(AppError {
        kind: ErrorKind::ClientInput,
        message: "Invalid L1 head, no 0x prefix.".to_string(),
    });
    for event in events {
        assert_eq!(
            request_agg_proof(
                &mut store,
                &registry(),
                &vec![subproof(1)],
                &"03".repeat(32),
                event.clone()
            ),
            expected
        );
        assert_eq!(
            request_mock_agg_proof(&registry(), &vec![subproof(1)], &"03".repeat(32), event),
            expected
        );
    }
    assert_eq!(store.len(), 0);
}

#[test]
fn agg_request_with_invalid_subproof_creates_no_job() {
    let mut store = ProofStore::new();
    let subproofs = vec![subproof(1), None];
    for event in [AggEvent::Received, AggEvent::StdinAssembled] {
        let action = request_agg_proof(&mut store, &registry(), &subproofs, &head(), event);
        assert_eq!(
            action,
            AggAction::Reject(AppError {
                kind: ErrorKind::ClientInput,
                message: "Failed to deserialize sub-proof.".to_string(),
            })
        );
    }
    assert_eq!(store.len(), 0);
}

#[test]
fn agg_request_with_empty_list_is_a_client_error() {
    let mut store = ProofStore::new();
    let action =
        request_agg_proof(&mut store, &registry(), &Vec::new(), &head(), AggEvent::StdinAssembled);
    match action {
        AggAction::Reject(error) => {
            assert_eq!(error.kind, ErrorKind::ClientInput);
            assert_eq!(error.status_code(), 400);
            assert_eq!(error.message, "Nothing to aggregate: no sub-proofs were given.");
            assert_eq!(error.to_string(), "Nothing to aggregate: no sub-proofs were given.");
        },
        other => panic!("not refused: {:?}", other),
    }
    assert_eq!(store.len(), 0);
}

#[test]
fn agg_failures_are_upstream_errors() {
    let mut store = ProofStore::new();
    let subproofs = vec![subproof(1)];
    let cases = [
        (AggStep::CreateFetcher, ErrorKind::Upstream, "Failed to create fetcher: down"),
        (AggStep::ResolveHeaders, ErrorKind::Upstream, "Failed to get header preimages: down"),
        (AggStep::AssembleStdin, ErrorKind::Upstream, "Failed to get agg proof stdin: down"),
        (AggStep::ProveInline, ErrorKind::Backend, "down"),
    ];
    for (step, kind, message) in cases {
        let event = AggEvent::Failed(step, "down".to_string());
        let error = AppError { kind, message: message.to_string() };
        assert_eq!(error.status_code(), 500);
        assert_eq!(
            request_agg_proof(&mut store, &registry(), &subproofs, &head(), event.clone()),
            AggAction::Reject(error)
        );
        assert_eq!(
            request_mock_agg_proof(&registry(), &subproofs, &head(), event),
            AggAction::Reject(AppError { kind, message: "down".to_string() })
        );
    }
    assert_eq!(store.len(), 0);
}

#[test]
fn agg_request_needs_headers_that_bridge() {
    let mut store = ProofStore::new();
    let broken = AggAction::Reject(AppError {
        kind: ErrorKind::Upstream,
        message: "Header preimages do not bridge the L1 head to the sub-proofs.".to_string(),
    });
    let mut short = headers();
    short.remove(0);
    assert_eq!(
        request_agg_proof(
            &mut store,
            &registry(),
            &vec![subproof(1)],
            &head(),
            AggEvent::HeadersResolved(short)
        ),
        broken
    );
    assert_eq!(
        request_agg_proof(
            &mut store,
            &registry(),
            &vec![subproof(1)],
            &head(),
            AggEvent::HeadersResolved(Vec::new())
        ),
        broken
    );
}

#[test]
fn mock_agg_request_proves_within_the_request() {
    let subproofs = vec![subproof(1)];
    assert_eq!(
        request_mock_agg_proof(&registry(), &subproofs, &head(), AggEvent::StdinAssembled),
        AggAction::ProveInline(InlineProof {
            plan: ProvingPlan { circuit: Circuit::Aggregation, mode: ProofMode::Groth16 },
            encoding: ProofEncoding::Payload,
        })
    );
    assert_eq!(
        request_mock_agg_proof(&registry(), &subproofs, &head(), AggEvent::InlineProved(vec![])),
        AggAction::RespondInline(ProofStatus {
            fulfillment_status: 3,
            execution_status: 0,
            proof: vec![]
        })
    );
}

#[test]
fn polling_tells_unknown_from_unfinished() {
    let mut store = ProofStore::new();
    let ticket = allocate_job(ProofType::Span, &mut store, 0x55);
    assert_eq!(ticket.job, 0x55);
    assert_eq!(ticket.proof_id, b"0x0000000000000055".to_vec());
    let known = get_proof_status(&store, &path_of(b"0x0000000000000055")).unwrap();
    let unknown = get_proof_status(&store, &path_of(b"0x0000000000000056")).unwrap();
    assert_eq!(known, ProofStatus { fulfillment_status: 2, execution_status: 1, proof: vec![] });
    assert_eq!(unknown, ProofStatus { fulfillment_status: 0, execution_status: 0, proof: vec![] });
    assert_ne!(known, unknown);
}

#[test]
fn polling_decodes_the_path() {
    let mut store = ProofStore::new();
    allocate_job(ProofType::Span, &mut store, 0xab);
    let executing = ProofStatus { fulfillment_status: 2, execution_status: 1, proof: vec![] };
    let plain = format!("3078{}6162", "30".repeat(14));
    assert_eq!(plain, hex::encode(b"0x00000000000000ab"));
    assert_eq!(get_proof_status(&store, &plain), Ok(executing.clone()));
    assert_eq!(get_proof_status(&store, &format!("0x{}", plain)), Ok(executing.clone()));
    assert_eq!(get_proof_status(&store, &format!("0X{}", plain.to_uppercase())), Ok(executing));
    assert_eq!(get_proof_status(&store, "3078"), Ok(ProofStatus::unknown()));
    assert_eq!(get_proof_status(&store, ""), Ok(ProofStatus::unknown()));
    assert_eq!(
        get_proof_status(&store, &format!("3078{}4142", "30".repeat(14))),
        Ok(ProofStatus::unknown())
    );
    assert_eq!(
        get_proof_status(&store, &format!("3078{}6163", "30".repeat(14))),
        Ok(ProofStatus::unknown())
    );
}

#[test]
fn polling_refuses_what_is_not_hex() {
    let store = ProofStore::new();
    assert_eq!(
        get_proof_status(&store, "abc"),
        Err(AppError {
            kind: ErrorKind::ClientInput,
            message: "Invalid proof id: odd number of digits".to_string()
        })
    );
    assert_eq!(
        get_proof_status(&store, "0x0000000000000055"),
        Ok(ProofStatus::unknown())
    );
    assert_eq!(
        get_proof_status(&store, "xyzw"),
        Err(AppError {
            kind: ErrorKind::ClientInput,
            message: "Invalid proof id: invalid character".to_string()
        })
    );
}

#[test]
fn allocation_takes_the_low_64_bits_and_steps_over_taken_ones() {
    let mut store = ProofStore::new();
    let uuid: u128 = 0xaaaa_bbbb_cccc_dddd_0000_0000_0000_0010;
    assert_eq!(allocate_job(ProofType::Span, &mut store, uuid).job, 0x10);
    let second = allocate_job(ProofType::Agg, &mut store, uuid);
    assert_eq!(second.job, 0x11);
    assert_eq!(second.proof_id, b"0x0000000000000011".to_vec());
    assert_eq!(second.kind, ProofType::Agg);
    assert_eq!(allocate_job(ProofType::Span, &mut store, 0x10).job, 0x12);
}

#[test]
fn sent_proofs_get_distinct_random_identifiers() {
    let mut store = ProofStore::new();
    let mut ids: Vec<Vec<u8>> = Vec::new();
    for i in 0..300 {
        let kind = if i % 2 == 0 { ProofType::Span } else { ProofType::Agg };
        let ticket = send_proof(kind, &mut store);
        assert_eq!(ticket.proof_id.len(), 18);
        assert_eq!(&ticket.proof_id[..2], b"0x");
        assert_eq!(parse_job_id(&ticket.proof_id), Some(ticket.job));
        assert_eq!(store.get(ticket.job).unwrap().kind, kind);
        assert_eq!(store.get(ticket.job).unwrap().status, JobStatus::Executing);
        assert!(!ids.contains(&ticket.proof_id));
        ids.push(ticket.proof_id);
    }
    assert_eq!(store.len(), 300);
    let first = ids[0].clone();
    assert!(ids.iter().any(|id| *id != first));
    assert!(ids.iter().all(|id| matches!(id[2], b'8' | b'9' | b'a' | b'b')));
}

#[test]
fn backend_failure_ends_the_job_unfulfillable() {
    let mut store = ProofStore::new();
    let ticket = allocate_job(ProofType::Span, &mut store, 1);
    assert_eq!(
        advance_job(&mut store, ticket.job, TaskEvent::Failed("out of memory".to_string())),
        TaskAction::Finished
    );
    assert_eq!(
        store.get(ticket.job).unwrap().status,
        JobStatus::Unfulfillable("error proving out of memory".to_string())
    );
    assert_eq!(
        get_proof_status(&store, &path_of(&ticket.proof_id)),
        Ok(ProofStatus { fulfillment_status: 4, execution_status: 3, proof: vec![] })
    );
    assert_eq!(
        advance_job(&mut store, ticket.job, TaskEvent::Encoded(vec![1])),
        TaskAction::Finished
    );
    assert_eq!(
        store.get(ticket.job).unwrap().status,
        JobStatus::Unfulfillable("error proving out of memory".to_string())
    );
}

#[test]
fn the_task_of_an_ended_job_is_over() {
    let mut store = ProofStore::new();
    let ticket = allocate_job(ProofType::Span, &mut store, 3);
    assert_eq!(
        advance_job(&mut store, ticket.job, TaskEvent::Encoded(vec![7])),
        TaskAction::Finished
    );
    for event in [
        TaskEvent::Started,
        TaskEvent::Proved(ProofVariant::Compressed),
        TaskEvent::Encoded(vec![8]),
        TaskEvent::Failed("late".to_string()),
    ] {
        assert_eq!(advance_job(&mut store, ticket.job, event), TaskAction::Finished);
        assert_eq!(store.get(ticket.job).unwrap().status, JobStatus::Fulfilled(vec![7]));
    }
}

#[test]
fn unsupported_proof_form_ends_the_job_unfulfillable() {
    let mut store = ProofStore::new();
    let ticket = allocate_job(ProofType::Agg, &mut store, 2);
    assert_eq!(
        advance_job(&mut store, ticket.job, TaskEvent::Proved(ProofVariant::Core)),
        TaskAction::Finished
    );
    assert_eq!(
        store.get(ticket.job).unwrap().status,
        JobStatus::Unfulfillable("unknown proof type".to_string())
    );
}

#[test]
fn a_job_the_store_does_not_know_has_no_task() {
    let mut store = ProofStore::new();
    for event in [
        TaskEvent::Started,
        TaskEvent::Proved(ProofVariant::Compressed),
        TaskEvent::Encoded(vec![1]),
        TaskEvent::Failed("x".to_string()),
    ] {
        assert_eq!(advance_job(&mut store, 99, event), TaskAction::Finished);
    }
    assert_eq!(store.len(), 0);
}

#[test]
fn plans_and_encodings() {
    assert_eq!(
        proving_plan(ProofType::Span),
        ProvingPlan { circuit: Circuit::Range, mode: ProofMode::Compressed }
    );
    assert_eq!(
        proving_plan(ProofType::Agg),
        ProvingPlan { circuit: Circuit::Aggregation, mode: ProofMode::Groth16 }
    );
    assert_eq!(encoding_for(ProofVariant::Compressed), Some(ProofEncoding::Full));
    assert_eq!(encoding_for(ProofVariant::Groth16), Some(ProofEncoding::Payload));
    assert_eq!(encoding_for(ProofVariant::Plonk), Some(ProofEncoding::Payload));
    assert_eq!(encoding_for(ProofVariant::Core), None);
}

#[test]
fn server_constants() {
    assert_eq!(REQUEST_BODY_LIMIT, 102400 * 1024 * 1024);
    assert_eq!(DEFAULT_PORT, 3000);
}
