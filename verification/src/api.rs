//! The request handlers. A handler does no outside work itself: it is
//! told what has happened so far and answers with what is to be done
//! next, be that a piece of outside work, the answer to the caller, or a
//! refusal. Whoever runs a handler performs the work and comes back with
//! the outcome.
//!
//! A handler looks at the request each time it is asked, so a request
//! that is refused is refused whatever the handler is told, and no job is
//! ever created for it.

use vstd::prelude::*;
use vstd::string::StringSliceAdditionalSpecFns;
use vstd::utf8::encode_utf8;
use crate::compose::{
    check_header_chain, compose, compose_error, composition, headers_bridge,
    subproofs_view, AggregationInput, AggregationInputView, Composition, CompositionView,
    HeaderPreimage, SubProof,
};
use crate::dispatch::{send_proof, Circuit, JobTicket, ProofEncoding, ProofMode, ProvingPlan};
use crate::error::{
    client_error, relayed_error, status_code_of, AppError, AppErrorView, ErrorKind,
};
use crate::hex::{decode_hex, hex_decode, hex_decode_exact, hex_error_text, parse_address, HexError};
use crate::job_id::{job_id_text, parse_job_id};
use crate::registry::{
    compare_config, config_flags, OracleCommitments, ValidateConfigResponse, VerifyingKeyRegistry,
};
use crate::status::{
    inline_report, status_report, unknown_report, JobStatusView, ProofJobView, ProofStatus,
    ProofStatusView, ProofType,
};
use crate::store::{new_job, ProofStore};

verus! {

/// The largest request body that is taken, in bytes. Aggregation requests
/// carry whole sub-proofs, so this is far above a server's usual limit.
pub const REQUEST_BODY_LIMIT: u64 = 107_374_182_400;

/// The port that is listened on where none is configured.
pub const DEFAULT_PORT: u16 = 3000;

/// A request for the proof of a span of blocks, both ends included.
#[derive(Debug, Clone, Copy, PartialEq, Eq, Structural)]
pub struct SpanProofRequest {
    pub start: u64,
    pub end: u64,
}

/// A request to compare the registry with an on-chain oracle.
#[derive(Debug, Clone, PartialEq, Eq)]
pub struct ValidateConfigRequest {
    pub address: String,
}

/// A proof to be made within the request, for local testing: what to
/// prove, and how to turn the proof into bytes.
#[derive(Debug, Clone, Copy, PartialEq, Eq, Structural)]
pub struct InlineProof {
    pub plan: ProvingPlan,
    pub encoding: ProofEncoding,
}

/// The outside work of a span request, in the order it is done in.
#[derive(Debug, Clone, Copy, PartialEq, Eq, Structural)]
pub enum SpanStep {
    /// Set up the chain-data fetcher.
    CreateFetcher,
    /// Resolve the witness generator's arguments for the range.
    ResolveHostArgs,
    /// Start witness generation.
    SpawnWitnessGen,
    /// Wait until witness generation ends or its time is up.
    FinishWitnessGen,
    /// Load the proving input that witness generation left.
    LoadStdin,
    /// Prove within the request.
    ProveInline,
}

/// What a span handler is told.
#[derive(Debug, Clone, PartialEq, Eq)]
pub enum SpanEvent {
    /// The request has come in.
    Received,
    /// The step was done.
    Completed(SpanStep),
    /// The step failed, with this message.
    Failed(SpanStep, String),
    /// The proof was made within the request; these are its bytes.
    InlineProved(Vec<u8>),
}

/// The mathematical value of a `SpanEvent`.
pub enum SpanEventView {
    Received,
    Completed(SpanStep),
    Failed(SpanStep, Seq<char>),
    InlineProved(Seq<u8>),
}

impl View for SpanEvent {
    type V = SpanEventView;

    open spec fn view(&self) -> SpanEventView {
        match self {
            SpanEvent::Received => SpanEventView::Received,
            SpanEvent::Completed(step) => SpanEventView::Completed(*step),
            SpanEvent::Failed(step, message) => SpanEventView::Failed(*step, message@),
            SpanEvent::InlineProved(bytes) => SpanEventView::InlineProved(bytes@),
        }
    }
}

/// What a span handler answers.
#[derive(Debug, Clone, PartialEq, Eq)]
pub enum SpanAction {
    /// Do this step and come back.
    Perform(SpanStep),
    /// Make this proof within the request and come back with its bytes.
    ProveInline(InlineProof),
    /// A job was created: start its background task and answer the caller
    /// with the identifier.
    Dispatched(JobTicket),
    /// Answer the caller with this status.
    RespondInline(ProofStatus),
    /// Answer the caller with this error.
    Reject(AppError),
}

/// What a span handler decides, before any job is created.
pub enum SpanPlan {
    Perform(SpanStep),
    ProveInline(InlineProof),
    Dispatch,
    RespondInline(ProofStatusView),
    Reject(AppErrorView),
}

/// Whether an action carries out a plan that creates no job.
pub open spec fn span_action_is(action: SpanAction, plan: SpanPlan) -> bool {
    match plan {
        SpanPlan::Perform(step) => action == SpanAction::Perform(step),
        SpanPlan::ProveInline(p) => action == SpanAction::ProveInline(p),
        SpanPlan::Dispatch => false,
        SpanPlan::RespondInline(status) => action matches SpanAction::RespondInline(s) && s@
            == status,
        SpanPlan::Reject(error) => action matches SpanAction::Reject(e) && e@ == error,
    }
}

/// Whose failure the failure of a step is.
pub open spec fn span_failure_kind(step: SpanStep) -> ErrorKind {
    match step {
        SpanStep::CreateFetcher => ErrorKind::Upstream,
        SpanStep::ResolveHostArgs => ErrorKind::Upstream,
        SpanStep::SpawnWitnessGen => ErrorKind::WitnessGeneration,
        SpanStep::FinishWitnessGen => ErrorKind::WitnessGeneration,
        SpanStep::LoadStdin => ErrorKind::WitnessGeneration,
        SpanStep::ProveInline => ErrorKind::Backend,
    }
}

/// The words put before the message of a failed step.
pub open spec fn span_failure_context(inline: bool, step: SpanStep) -> Seq<char> {
    match step {
        SpanStep::FinishWitnessGen => "Failed to generate witness: "@,
        SpanStep::ResolveHostArgs => if inline {
            ""@
        } else {
            "Failed to get host CLI args: "@
        },
        SpanStep::SpawnWitnessGen => if inline {
            ""@
        } else {
            "Failed to spawn witness generation: "@
        },
        SpanStep::LoadStdin => if inline {
            ""@
        } else {
            "Failed to get proof stdin: "@
        },
        _ => ""@,
    }
}

/// The proof a mock span request makes: a compressed proof of the range
/// circuit, encoded in full.
pub open spec fn inline_span_proof() -> InlineProof {
    InlineProof {
        plan: ProvingPlan { circuit: Circuit::Range, mode: ProofMode::Compressed },
        encoding: ProofEncoding::Full,
    }
}

/// The proof a mock aggregation request makes: a Groth16 proof of the
/// aggregation circuit, encoded as its payload.
pub open spec fn inline_agg_proof() -> InlineProof {
    InlineProof {
        plan: ProvingPlan { circuit: Circuit::Aggregation, mode: ProofMode::Groth16 },
        encoding: ProofEncoding::Payload,
    }
}

pub open spec fn unexpected_event() -> AppErrorView {
    AppErrorView { kind: ErrorKind::Backend, message: "Unexpected event."@ }
}

pub open spec fn invalid_range() -> AppErrorView {
    client_error("Invalid block range: end must be greater than start."@)
}

/// What a span handler decides. `inline` tells the mock route, which
/// proves within the request, from the route that dispatches a job.
pub open spec fn span_plan(inline: bool, request: SpanProofRequest, event: SpanEventView) -> SpanPlan {
    if request.end <= request.start {
        SpanPlan::Reject(invalid_range())
    } else {
        match event {
            SpanEventView::Received => SpanPlan::Perform(SpanStep::CreateFetcher),
            SpanEventView::Failed(step, message) => SpanPlan::Reject(
                relayed_error(span_failure_kind(step), span_failure_context(inline, step), message),
            ),
            SpanEventView::Completed(SpanStep::CreateFetcher) => SpanPlan::Perform(
                SpanStep::ResolveHostArgs,
            ),
            SpanEventView::Completed(SpanStep::ResolveHostArgs) => SpanPlan::Perform(
                SpanStep::SpawnWitnessGen,
            ),
            SpanEventView::Completed(SpanStep::SpawnWitnessGen) => SpanPlan::Perform(
                SpanStep::FinishWitnessGen,
            ),
            SpanEventView::Completed(SpanStep::FinishWitnessGen) => SpanPlan::Perform(
                SpanStep::LoadStdin,
            ),
            SpanEventView::Completed(SpanStep::LoadStdin) => if inline {
                SpanPlan::ProveInline(inline_span_proof())
            } else {
                SpanPlan::Dispatch
            },
            SpanEventView::Completed(SpanStep::ProveInline) => SpanPlan::Reject(unexpected_event()),
            SpanEventView::InlineProved(bytes) => if inline {
                SpanPlan::RespondInline(inline_report(bytes))
            } else {
                SpanPlan::Reject(unexpected_event())
            },
        }
    }
}

fn span_context(inline: bool, step: SpanStep) -> (context: &'static str)
    ensures
        context@ == span_failure_context(inline, step),
{
    match step {
        SpanStep::FinishWitnessGen => "Failed to generate witness: ",
        SpanStep::ResolveHostArgs => if inline {
            ""
        } else {
            "Failed to get host CLI args: "
        },
        SpanStep::SpawnWitnessGen => if inline {
            ""
        } else {
            "Failed to spawn witness generation: "
        },
        SpanStep::LoadStdin => if inline {
            ""
        } else {
            "Failed to get proof stdin: "
        },
        _ => "",
    }
}

fn span_kind(step: SpanStep) -> (kind: ErrorKind)
    ensures
        kind == span_failure_kind(step),
{
    match step {
        SpanStep::CreateFetcher => ErrorKind::Upstream,
        SpanStep::ResolveHostArgs => ErrorKind::Upstream,
        SpanStep::SpawnWitnessGen => ErrorKind::WitnessGeneration,
        SpanStep::FinishWitnessGen => ErrorKind::WitnessGeneration,
        SpanStep::LoadStdin => ErrorKind::WitnessGeneration,
        SpanStep::ProveInline => ErrorKind::Backend,
    }
}

fn unexpected() -> (e: AppError)
    ensures
        e@ == unexpected_event(),
{
    AppError::new(ErrorKind::Backend, "Unexpected event.")
}

/// The decisions both span routes share, up to the point where they part.
fn span_step(inline: bool, payload: &SpanProofRequest, event: SpanEvent) -> (action: Option<SpanAction>)
    ensures
        match action {
            Some(a) => span_action_is(a, span_plan(inline, *payload, event@)),
            None => span_plan(inline, *payload, event@) is Dispatch,
        },
{
    if payload.end <= payload.start {
        return Some(
            SpanAction::Reject(
                AppError::client("Invalid block range: end must be greater than start."),
            ),
        );
    }
    match event {
        SpanEvent::Received => Some(SpanAction::Perform(SpanStep::CreateFetcher)),
        SpanEvent::Failed(step, message) => Some(
            SpanAction::Reject(
                AppError::relayed(span_kind(step), span_context(inline, step), message.as_str()),
            ),
        ),
        SpanEvent::Completed(step) => match step {
            SpanStep::CreateFetcher => Some(SpanAction::Perform(SpanStep::ResolveHostArgs)),
            SpanStep::ResolveHostArgs => Some(SpanAction::Perform(SpanStep::SpawnWitnessGen)),
            SpanStep::SpawnWitnessGen => Some(SpanAction::Perform(SpanStep::FinishWitnessGen)),
            SpanStep::FinishWitnessGen => Some(SpanAction::Perform(SpanStep::LoadStdin)),
            SpanStep::LoadStdin => if inline {
                Some(
                    SpanAction::ProveInline(
                        InlineProof {
                            plan: ProvingPlan {
                                circuit: Circuit::Range,
                                mode: ProofMode::Compressed,
                            },
                            encoding: ProofEncoding::Full,
                        },
                    ),
                )
            } else {
                None
            },
            SpanStep::ProveInline => Some(SpanAction::Reject(unexpected())),
        },
        SpanEvent::InlineProved(bytes) => if inline {
            Some(SpanAction::RespondInline(ProofStatus::inline(bytes)))
        } else {
            Some(SpanAction::Reject(unexpected()))
        },
    }
}

/// Whether `ticket` is a job of `kind` that was created in going from
/// `before` to `after`, under an identifier that no job had.
pub open spec fn dispatched(
    before: Map<u64, ProofJobView>,
    after: Map<u64, ProofJobView>,
    kind: ProofType,
    ticket: JobTicket,
) -> bool {
    &&& !before.contains_key(ticket.job)
    &&& after == before.insert(ticket.job, new_job(kind))
    &&& ticket.proof_id@ == job_id_text(ticket.job)
    &&& ticket.kind == kind
}

/// Handles a request for a span proof. A range whose end is not above
/// its start is refused. Then, step by step: fetcher, arguments, witness
/// generation, proving input; the failure of any step is the end of the
/// request, with no job created. When the proving input is there, a job is
/// created and its identifier answered at once.
pub fn request_span_proof(
    proof_store: &mut ProofStore,
    payload: &SpanProofRequest,
    event: SpanEvent,
) -> (action: SpanAction)
    requires
        old(proof_store).wf(),
    ensures
        final(proof_store).wf(),
        match span_plan(false, *payload, event@) {
            SpanPlan::Dispatch => action matches SpanAction::Dispatched(ticket) && dispatched(
                old(proof_store)@,
                final(proof_store)@,
                ProofType::Span,
                ticket,
            ) && final(proof_store).issued() == old(proof_store).issued().push(ticket.job),
            plan => span_action_is(action, plan) && final(proof_store)@ == old(proof_store)@
                && final(proof_store).issued() == old(proof_store).issued(),
        },
{
    match span_step(false, payload, event) {
        Some(action) => action,
        None => SpanAction::Dispatched(send_proof(ProofType::Span, proof_store)),
    }
}

/// Handles a mock request for a span proof: as `request_span_proof`, but
/// in place of a job the proof is made within the request and answered
/// inline. No job is ever created.
pub fn request_mock_span_proof(payload: &SpanProofRequest, event: SpanEvent) -> (action: SpanAction)
    ensures
        span_action_is(action, span_plan(true, *payload, event@)),
{
    match span_step(true, payload, event) {
        Some(action) => action,
        None => SpanAction::Reject(unexpected()),
    }
}

/// The outside work of an aggregation request that can fail.
#[derive(Debug, Clone, Copy, PartialEq, Eq, Structural)]
pub enum AggStep {
    /// Set up the chain-data fetcher.
    CreateFetcher,
    /// Resolve the headers from the boot infos' L1 heads up to the
    /// aggregation head.
    ResolveHeaders,
    /// Assemble the proving input.
    AssembleStdin,
    /// Prove within the request.
    ProveInline,
}

/// What an aggregation handler is told.
#[derive(Debug, Clone, PartialEq, Eq)]
pub enum AggEvent {
    /// The request has come in.
    Received,
    /// The fetcher is set up.
    FetcherCreated,
    /// The fetcher resolved these headers, oldest first.
    HeadersResolved(Vec<HeaderPreimage>),
    /// The proving input is assembled.
    StdinAssembled,
    /// The proof was made within the request; these are its bytes.
    InlineProved(Vec<u8>),
    /// The step failed, with this message.
    Failed(AggStep, String),
}

/// The mathematical value of an `AggEvent`.
pub enum AggEventView {
    Received,
    FetcherCreated,
    HeadersResolved(Seq<HeaderPreimage>),
    StdinAssembled,
    InlineProved(Seq<u8>),
    Failed(AggStep, Seq<char>),
}

impl View for AggEvent {
    type V = AggEventView;

    open spec fn view(&self) -> AggEventView {
        match self {
            AggEvent::Received => AggEventView::Received,
            AggEvent::FetcherCreated => AggEventView::FetcherCreated,
            AggEvent::HeadersResolved(headers) => AggEventView::HeadersResolved(headers@),
            AggEvent::StdinAssembled => AggEventView::StdinAssembled,
            AggEvent::InlineProved(bytes) => AggEventView::InlineProved(bytes@),
            AggEvent::Failed(step, message) => AggEventView::Failed(*step, message@),
        }
    }
}

/// What an aggregation handler answers.
#[derive(Debug, Clone, PartialEq, Eq)]
pub enum AggAction {
    /// Set up the chain-data fetcher and come back.
    CreateFetcher,
    /// Resolve the headers that bridge the head down to these boot infos'
    /// L1 heads and come back with them.
    ResolveHeaders(Composition),
    /// Assemble the proving input from this and come back.
    AssembleStdin(AggregationInput),
    /// Make this proof within the request and come back with its bytes.
    ProveInline(InlineProof),
    /// A job was created: start its background task and answer the caller
    /// with the identifier.
    Dispatched(JobTicket),
    /// Answer the caller with this status.
    RespondInline(ProofStatus),
    /// Answer the caller with this error.
    Reject(AppError),
}

/// What an aggregation handler decides, before any job is created.
pub enum AggPlan {
    CreateFetcher,
    ResolveHeaders(CompositionView),
    AssembleStdin(AggregationInputView),
    ProveInline(InlineProof),
    Dispatch,
    RespondInline(ProofStatusView),
    Reject(AppErrorView),
}

/// Whether an action carries out a plan that creates no job.
pub open spec fn agg_action_is(action: AggAction, plan: AggPlan) -> bool {
    match plan {
        AggPlan::CreateFetcher => action is CreateFetcher,
        AggPlan::ResolveHeaders(c) => action matches AggAction::ResolveHeaders(a) && a@ == c,
        AggPlan::AssembleStdin(input) => action matches AggAction::AssembleStdin(a) && a@ == input,
        AggPlan::ProveInline(p) => action matches AggAction::ProveInline(a) && a == p,
        AggPlan::Dispatch => false,
        AggPlan::RespondInline(status) => action matches AggAction::RespondInline(s) && s@ == status,
        AggPlan::Reject(error) => action matches AggAction::Reject(e) && e@ == error,
    }
}

/// Whose failure the failure of a step is.
pub open spec fn agg_failure_kind(step: AggStep) -> ErrorKind {
    match step {
        AggStep::ProveInline => ErrorKind::Backend,
        _ => ErrorKind::Upstream,
    }
}

/// The words put before the message of a failed step.
pub open spec fn agg_failure_context(inline: bool, step: AggStep) -> Seq<char> {
    if inline {
        ""@
    } else {
        match step {
            AggStep::CreateFetcher => "Failed to create fetcher: "@,
            AggStep::ResolveHeaders => "Failed to get header preimages: "@,
            AggStep::AssembleStdin => "Failed to get agg proof stdin: "@,
            AggStep::ProveInline => ""@,
        }
    }
}

pub open spec fn broken_chain() -> AppErrorView {
    AppErrorView {
        kind: ErrorKind::Upstream,
        message: "Header preimages do not bridge the L1 head to the sub-proofs."@,
    }
}

/// What an aggregation handler decides. The request is composed first,
/// whatever the event: a request that does not compose is refused with a
/// client-input error.
pub open spec fn agg_plan(
    inline: bool,
    registry: VerifyingKeyRegistry,
    subproofs: Seq<Option<crate::compose::SubProofView>>,
    head: Seq<u8>,
    event: AggEventView,
) -> AggPlan {
    match composition(registry, subproofs, head) {
        Err(failure) => AggPlan::Reject(compose_error(failure)),
        Ok(composed) => match event {
            AggEventView::Received => AggPlan::CreateFetcher,
            AggEventView::Failed(step, message) => AggPlan::Reject(
                relayed_error(agg_failure_kind(step), agg_failure_context(inline, step), message),
            ),
            AggEventView::FetcherCreated => AggPlan::ResolveHeaders(composed),
            AggEventView::HeadersResolved(headers) => if headers_bridge(
                headers,
                composed.boot_infos,
                composed.l1_head,
            ) {
                AggPlan::AssembleStdin(
                    AggregationInputView {
                        boot_infos: composed.boot_infos,
                        headers,
                        range_vkey_commitment: registry.range_vkey_commitment@,
                        l1_head: composed.l1_head,
                    },
                )
            } else {
                AggPlan::Reject(broken_chain())
            },
            AggEventView::StdinAssembled => if inline {
                AggPlan::ProveInline(inline_agg_proof())
            } else {
                AggPlan::Dispatch
            },
            AggEventView::InlineProved(bytes) => if inline {
                AggPlan::RespondInline(inline_report(bytes))
            } else {
                AggPlan::Reject(unexpected_event())
            },
        },
    }
}

fn agg_context(inline: bool, step: AggStep) -> (context: &'static str)
    ensures
        context@ == agg_failure_context(inline, step),
{
    if inline {
        ""
    } else {
        match step {
            AggStep::CreateFetcher => "Failed to create fetcher: ",
            AggStep::ResolveHeaders => "Failed to get header preimages: ",
            AggStep::AssembleStdin => "Failed to get agg proof stdin: ",
            AggStep::ProveInline => "",
        }
    }
}

fn agg_kind(step: AggStep) -> (kind: ErrorKind)
    ensures
        kind == agg_failure_kind(step),
{
    match step {
        AggStep::ProveInline => ErrorKind::Backend,
        _ => ErrorKind::Upstream,
    }
}

/// The decisions both aggregation routes share.
fn agg_step(
    inline: bool,
    registry: &VerifyingKeyRegistry,
    subproofs: &Vec<Option<SubProof>>,
    head: &str,
    event: AggEvent,
) -> (action: Option<AggAction>)
    ensures
        match action {
            Some(a) => agg_action_is(
                a,
                agg_plan(inline, *registry, subproofs_view(subproofs@), head.spec_bytes(), event@),
            ),
            None => agg_plan(inline, *registry, subproofs_view(subproofs@), head.spec_bytes(), event@)
                is Dispatch,
        },
{
    let composed = match compose(registry, subproofs, head) {
        Err(failure) => {
            return Some(AggAction::Reject(failure.into_error()));
        },
        Ok(c) => c,
    };
    match event {
        AggEvent::Received => Some(AggAction::CreateFetcher),
        AggEvent::Failed(step, message) => Some(
            AggAction::Reject(
                AppError::relayed(agg_kind(step), agg_context(inline, step), message.as_str()),
            ),
        ),
        AggEvent::FetcherCreated => Some(AggAction::ResolveHeaders(composed)),
        AggEvent::HeadersResolved(headers) => {
            if check_header_chain(&headers, &composed.boot_infos, &composed.l1_head) {
                Some(
                    AggAction::AssembleStdin(
                        AggregationInput {
                            boot_infos: composed.boot_infos,
                            headers,
                            range_vkey_commitment: registry.range_vkey_commitment,
                            l1_head: composed.l1_head,
                        },
                    ),
                )
            } else {
                Some(
                    AggAction::Reject(
                        AppError::new(
                            ErrorKind::Upstream,
                            "Header preimages do not bridge the L1 head to the sub-proofs.",
                        ),
                    ),
                )
            }
        },
        AggEvent::StdinAssembled => if inline {
            Some(
                AggAction::ProveInline(
                    InlineProof {
                        plan: ProvingPlan { circuit: Circuit::Aggregation, mode: ProofMode::Groth16 },
                        encoding: ProofEncoding::Payload,
                    },
                ),
            )
        } else {
            None
        },
        AggEvent::InlineProved(bytes) => if inline {
            Some(AggAction::RespondInline(ProofStatus::inline(bytes)))
        } else {
            Some(AggAction::Reject(unexpected()))
        },
    }
}

/// Handles a request for an aggregation proof. `subproofs` holds the
/// request's sub-proof blobs as far as they decoded, `None` for one that
/// did not; `head` is the L1 head as the caller wrote it. The request is
/// composed; then, step by step: fetcher, headers, proving input. The
/// headers have to bridge the head down to every sub-proof's L1 head.
/// When the proving input is there, a job is created and its identifier
/// answered at once.
pub fn request_agg_proof(
    proof_store: &mut ProofStore,
    registry: &VerifyingKeyRegistry,
    subproofs: &Vec<Option<SubProof>>,
    head: &str,
    event: AggEvent,
) -> (action: AggAction)
    requires
        old(proof_store).wf(),
    ensures
        final(proof_store).wf(),
        match agg_plan(false, *registry, subproofs_view(subproofs@), head.spec_bytes(), event@) {
            AggPlan::Dispatch => action matches AggAction::Dispatched(ticket) && dispatched(
                old(proof_store)@,
                final(proof_store)@,
                ProofType::Agg,
                ticket,
            ) && final(proof_store).issued() == old(proof_store).issued().push(ticket.job),
            plan => agg_action_is(action, plan) && final(proof_store)@ == old(proof_store)@
                && final(proof_store).issued() == old(proof_store).issued(),
        },
{
    match agg_step(false, registry, subproofs, head, event) {
        Some(action) => action,
        None => AggAction::Dispatched(send_proof(ProofType::Agg, proof_store)),
    }
}

/// Handles a mock request for an aggregation proof: as
/// `request_agg_proof`, but in place of a job the proof is made within the
/// request and answered inline. No job is ever created.
pub fn request_mock_agg_proof(
    registry: &VerifyingKeyRegistry,
    subproofs: &Vec<Option<SubProof>>,
    head: &str,
    event: AggEvent,
) -> (action: AggAction)
    ensures
        agg_action_is(
            action,
            agg_plan(true, *registry, subproofs_view(subproofs@), head.spec_bytes(), event@),
        ),
{
    match agg_step(true, registry, subproofs, head, event) {
        Some(action) => action,
        None => AggAction::Reject(unexpected()),
    }
}

/// A request that does not compose is refused with a client-input error
/// whatever the handler is told, on both routes: no job is created for a
/// head without the `0x` prefix, nor for a list with a sub-proof that did
/// not decode, nor for an empty list.
pub proof fn lemma_uncomposable_requests_are_refused(
    inline: bool,
    registry: VerifyingKeyRegistry,
    subproofs: Seq<Option<crate::compose::SubProofView>>,
    head: Seq<u8>,
    event: AggEventView,
)
    requires
        !crate::compose::has_0x_prefix(head) || subproofs.len() == 0 || exists|i: int|
            0 <= i < subproofs.len() && (#[trigger] subproofs[i]) is None,
    ensures
        agg_plan(inline, registry, subproofs, head, event) matches AggPlan::Reject(error)
            && error.kind == ErrorKind::ClientInput && status_code_of(error.kind) == 400,
        !crate::compose::has_0x_prefix(head) ==> agg_plan(inline, registry, subproofs, head, event)
            == AggPlan::Reject(compose_error(crate::compose::ComposeFailure::MissingPrefix)),
{
    crate::compose::lemma_composition_refusals(registry, subproofs, head);
}

/// The failure of a piece of outside work ends a span request with an
/// error: no job is created after it.
pub proof fn lemma_failed_span_steps_create_no_job(
    inline: bool,
    request: SpanProofRequest,
    step: SpanStep,
    message: Seq<char>,
)
    ensures
        span_plan(inline, request, SpanEventView::Failed(step, message)) is Reject,
{
}

/// The failure of a piece of outside work ends an aggregation request
/// with an error: no job is created after it.
pub proof fn lemma_failed_agg_steps_create_no_job(
    inline: bool,
    registry: VerifyingKeyRegistry,
    subproofs: Seq<Option<crate::compose::SubProofView>>,
    head: Seq<u8>,
    step: AggStep,
    message: Seq<char>,
)
    ensures
        agg_plan(inline, registry, subproofs, head, AggEventView::Failed(step, message)) is Reject,
{
}

/// A job that was just created is reported as not yet fulfilled, without
/// proof bytes; before it was created its identifier was reported as
/// unknown; and the two reports differ.
pub proof fn lemma_poll_tells_unknown_from_unfinished(
    jobs: Map<u64, ProofJobView>,
    job: u64,
    kind: ProofType,
)
    requires
        !jobs.contains_key(job),
    ensures
        poll(jobs, job_id_text(job)) == unknown_report(),
        poll(jobs.insert(job, new_job(kind)), job_id_text(job)) == status_report(
            JobStatusView::Executing,
        ),
        status_report(JobStatusView::Executing).proof == Seq::<u8>::empty(),
        status_report(JobStatusView::Executing) != unknown_report(),
{
    let text = job_id_text(job);
    crate::job_id::lemma_job_id_text_unique(jobs.dom(), job, text);
    let after = jobs.insert(job, new_job(kind));
    crate::job_id::lemma_job_id_text_unique(after.dom(), job, text);
    assert(after.contains_key(job) && job_id_text(job) == text);
}

/// What a poller is told about the identifier with these bytes: the
/// report on the job it names, or the report on an unknown identifier.
pub open spec fn poll(jobs: Map<u64, ProofJobView>, id: Seq<u8>) -> ProofStatusView {
    if exists|job: u64| jobs.contains_key(job) && #[trigger] job_id_text(job) == id {
        let job = choose|job: u64| jobs.contains_key(job) && #[trigger] job_id_text(job) == id;
        status_report(jobs[job].status)
    } else {
        unknown_report()
    }
}

pub open spec fn invalid_proof_id(e: HexError) -> AppErrorView {
    relayed_error(ErrorKind::ClientInput, "Invalid proof id: "@, hex_error_text(e))
}

/// Answers a status poll. `proof_id` is the job's identifier in hex, as
/// it stands in the request path. Text that is not hex is refused; an
/// identifier that no job was created under is answered as unknown; a job
/// is answered with its state, and with its proof only if it is fulfilled.
pub fn get_proof_status(proof_store: &ProofStore, proof_id: &str) -> (r: Result<ProofStatus, AppError>)
    ensures
        match hex_decode(proof_id.spec_bytes()) {
            Err(e) => r matches Err(error) && error@ == invalid_proof_id(e),
            Ok(id) => r matches Ok(status) && status@ == poll(proof_store@, id),
        },
{
    let id = match decode_hex(proof_id.as_bytes()) {
        Err(e) => {
            return Err(AppError::relayed(ErrorKind::ClientInput, "Invalid proof id: ", e.message()));
        },
        Ok(id) => id,
    };
    match parse_job_id(id.as_slice()) {
        None => Ok(ProofStatus::unknown()),
        Some(job) => {
            proof {
                crate::job_id::lemma_job_id_text_unique(proof_store@.dom(), job, id@);
            }
            match proof_store.get(job) {
                None => Ok(ProofStatus::unknown()),
                Some(record) => Ok(record.status.report()),
            }
        },
    }
}

/// What `validate_config` is told.
#[derive(Debug, Clone, PartialEq, Eq)]
pub enum ConfigEvent {
    /// The request has come in.
    Received,
    /// The oracle answered with these commitments.
    OracleAnswered(OracleCommitments),
    /// A query to the oracle failed, with this message.
    OracleFailed(String),
}

/// The mathematical value of a `ConfigEvent`.
pub enum ConfigEventView {
    Received,
    OracleAnswered(OracleCommitments),
    OracleFailed(Seq<char>),
}

impl View for ConfigEvent {
    type V = ConfigEventView;

    open spec fn view(&self) -> ConfigEventView {
        match self {
            ConfigEvent::Received => ConfigEventView::Received,
            ConfigEvent::OracleAnswered(c) => ConfigEventView::OracleAnswered(*c),
            ConfigEvent::OracleFailed(message) => ConfigEventView::OracleFailed(message@),
        }
    }
}

/// What `validate_config` answers.
#[derive(Debug, Clone, PartialEq, Eq)]
pub enum ConfigAction {
    /// Read the three commitments of the oracle at this address and come
    /// back with them.
    QueryOracle([u8; 20]),
    /// Answer the caller with these flags.
    Respond(ValidateConfigResponse),
    /// Answer the caller with this error.
    Reject(AppError),
}

/// The mathematical value of a `ConfigAction`.
pub enum ConfigActionView {
    QueryOracle(Seq<u8>),
    Respond(ValidateConfigResponse),
    Reject(AppErrorView),
}

impl View for ConfigAction {
    type V = ConfigActionView;

    open spec fn view(&self) -> ConfigActionView {
        match self {
            ConfigAction::QueryOracle(address) => ConfigActionView::QueryOracle(address@),
            ConfigAction::Respond(flags) => ConfigActionView::Respond(*flags),
            ConfigAction::Reject(e) => ConfigActionView::Reject(e@),
        }
    }
}

/// What `validate_config` decides.
pub open spec fn config_plan(
    registry: VerifyingKeyRegistry,
    address: Seq<u8>,
    event: ConfigEventView,
) -> ConfigActionView {
    match hex_decode_exact(address, 20) {
        Err(e) => ConfigActionView::Reject(
            relayed_error(ErrorKind::ClientInput, "Invalid oracle address: "@, hex_error_text(e)),
        ),
        Ok(oracle) => match event {
            ConfigEventView::Received => ConfigActionView::QueryOracle(oracle),
            ConfigEventView::OracleAnswered(onchain) => ConfigActionView::Respond(
                config_flags(registry, onchain),
            ),
            ConfigEventView::OracleFailed(message) => ConfigActionView::Reject(
                relayed_error(ErrorKind::Upstream, ""@, message),
            ),
        },
    }
}

/// Handles a request to validate the configuration: reads the oracle's
/// address, asks for the oracle's three commitments, and answers one flag
/// for each, by comparison with the registry. It changes nothing, and the
/// same registry and the same answer of the oracle give the same flags.
pub fn validate_config(
    registry: &VerifyingKeyRegistry,
    payload: &ValidateConfigRequest,
    event: ConfigEvent,
) -> (action: ConfigAction)
    ensures
        action@ == config_plan(*registry, encode_utf8(payload.address@), event@),
{
    let oracle = match parse_address(payload.address.as_str()) {
        Err(e) => {
            return ConfigAction::Reject(
                AppError::relayed(ErrorKind::ClientInput, "Invalid oracle address: ", e.message()),
            );
        },
        Ok(oracle) => oracle,
    };
    match event {
        ConfigEvent::Received => ConfigAction::QueryOracle(oracle),
        ConfigEvent::OracleAnswered(onchain) => ConfigAction::Respond(
            compare_config(registry, &onchain),
        ),
        ConfigEvent::OracleFailed(message) => ConfigAction::Reject(
            AppError::relayed(ErrorKind::Upstream, "", message.as_str()),
        ),
    }
}

} // verus!
