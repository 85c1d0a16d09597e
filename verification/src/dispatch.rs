//! The job dispatcher: allocating a job for an accepted request, and the
//! decisions of the background task that drives the proving backend and
//! writes the job's end into the store.

use vstd::prelude::*;
use vstd::string::StringExecFns;
use crate::compose::ProofVariant;
use crate::job_id::{job_id_bytes, job_id_of, job_id_text};
use crate::status::{JobStatus, JobStatusView, ProofJobView, ProofType, status_follows};
use crate::store::{is_first_free, new_job, ProofStore};

verus! {

/// A circuit the proving backend can be configured for.
#[derive(Debug, Clone, Copy, PartialEq, Eq, Structural)]
pub enum Circuit {
    Range,
    Aggregation,
}

/// The form of proof asked of the backend.
#[derive(Debug, Clone, Copy, PartialEq, Eq, Structural)]
pub enum ProofMode {
    Compressed,
    Groth16,
}

/// How a finished proof is turned into bytes.
#[derive(Debug, Clone, Copy, PartialEq, Eq, Structural)]
pub enum ProofEncoding {
    /// The whole proof, header and payload: it will be read again as a
    /// sub-proof.
    Full,
    /// Only the bytes the on-chain verifier takes.
    Payload,
}

/// What the backend is to be configured for, and what it is to produce.
/// The two belong together: the backend remembers only the circuit it was
/// configured for last, so whoever proves configures first, and nobody
/// else may use the backend in between.
#[derive(Debug, Clone, Copy, PartialEq, Eq, Structural)]
pub struct ProvingPlan {
    pub circuit: Circuit,
    pub mode: ProofMode,
}

/// The plan for a job of the given kind.
pub open spec fn plan_for(kind: ProofType) -> ProvingPlan {
    match kind {
        ProofType::Span => ProvingPlan { circuit: Circuit::Range, mode: ProofMode::Compressed },
        ProofType::Agg => ProvingPlan { circuit: Circuit::Aggregation, mode: ProofMode::Groth16 },
    }
}

/// How a proof of the given form is encoded; `None` for a form that is
/// not relayed.
pub open spec fn encoding_of(variant: ProofVariant) -> Option<ProofEncoding> {
    match variant {
        ProofVariant::Compressed => Some(ProofEncoding::Full),
        ProofVariant::Groth16 => Some(ProofEncoding::Payload),
        ProofVariant::Plonk => Some(ProofEncoding::Payload),
        ProofVariant::Core => None,
    }
}

/// The plan for a job of the given kind.
pub fn proving_plan(kind: ProofType) -> (plan: ProvingPlan)
    ensures
        plan == plan_for(kind),
{
    match kind {
        ProofType::Span => ProvingPlan { circuit: Circuit::Range, mode: ProofMode::Compressed },
        ProofType::Agg => ProvingPlan { circuit: Circuit::Aggregation, mode: ProofMode::Groth16 },
    }
}

/// How a proof of the given form is encoded.
pub fn encoding_for(variant: ProofVariant) -> (encoding: Option<ProofEncoding>)
    ensures
        encoding == encoding_of(variant),
{
    match variant {
        ProofVariant::Compressed => Some(ProofEncoding::Full),
        ProofVariant::Groth16 => Some(ProofEncoding::Payload),
        ProofVariant::Plonk => Some(ProofEncoding::Payload),
        ProofVariant::Core => None,
    }
}

/// A fresh random 128-bit value: `Uuid::new_v4` of the `uuid` crate, as
/// an integer. Only what holds of every version-4 UUID is claimed: the
/// version field is 4 and the variant field is binary 10.
#[verifier::external_body]
fn random_uuid() -> (value: u128)
    ensures
        (value >> 76) & 0xf == 4,
        (value >> 62) & 0x3 == 2,
{
    uuid::Uuid::new_v4().as_u128()
}

/// An allocated job: its identifier as a value and as the text handed to
/// the caller, and its kind.
#[derive(Debug, Clone, PartialEq, Eq)]
pub struct JobTicket {
    pub job: u64,
    pub proof_id: Vec<u8>,
    pub kind: ProofType,
}

/// Allocates a job of `kind` for the random value `uuid`: under the
/// identifier made of its low 64 bits or, should a job have that one, under
/// the next free one.
pub fn allocate_job(kind: ProofType, proof_store: &mut ProofStore, uuid: u128) -> (ticket: JobTicket)
    requires
        old(proof_store).wf(),
    ensures
        final(proof_store).wf(),
        is_first_free(old(proof_store)@.dom(), job_id_of(uuid), ticket.job),
        !old(proof_store)@.contains_key(ticket.job),
        !old(proof_store).issued().contains(ticket.job),
        final(proof_store)@ == old(proof_store)@.insert(ticket.job, new_job(kind)),
        final(proof_store).issued() == old(proof_store).issued().push(ticket.job),
        ticket.proof_id@ == job_id_text(ticket.job),
        ticket.kind == kind,
{
    let candidate: u64 = (uuid % 0x1_0000_0000_0000_0000u128) as u64;
    let job: u64 = proof_store.create(kind, candidate);
    JobTicket { job, proof_id: job_id_bytes(job), kind }
}

/// Allocates a job of the given kind under a fresh random identifier and
/// records it as executing. The caller gets the identifier at once; the
/// proving itself is the background task's.
pub fn send_proof(proof_type: ProofType, proof_store: &mut ProofStore) -> (ticket: JobTicket)
    requires
        old(proof_store).wf(),
    ensures
        final(proof_store).wf(),
        !old(proof_store)@.contains_key(ticket.job),
        !old(proof_store).issued().contains(ticket.job),
        final(proof_store)@ == old(proof_store)@.insert(ticket.job, new_job(proof_type)),
        final(proof_store).issued() == old(proof_store).issued().push(ticket.job),
        ticket.proof_id@ == job_id_text(ticket.job),
        ticket.kind == proof_type,
{
    let uuid: u128 = random_uuid();
    allocate_job(proof_type, proof_store, uuid)
}

/// What the background task reports.
#[derive(Debug, Clone, PartialEq, Eq)]
pub enum TaskEvent {
    /// The task has started.
    Started,
    /// The backend returned a proof of this form.
    Proved(ProofVariant),
    /// The proof was encoded as asked.
    Encoded(Vec<u8>),
    /// The backend failed, with this message.
    Failed(String),
}

/// The mathematical value of a `TaskEvent`.
pub enum TaskEventView {
    Started,
    Proved(ProofVariant),
    Encoded(Seq<u8>),
    Failed(Seq<char>),
}

impl View for TaskEvent {
    type V = TaskEventView;

    open spec fn view(&self) -> TaskEventView {
        match self {
            TaskEvent::Started => TaskEventView::Started,
            TaskEvent::Proved(v) => TaskEventView::Proved(*v),
            TaskEvent::Encoded(bytes) => TaskEventView::Encoded(bytes@),
            TaskEvent::Failed(message) => TaskEventView::Failed(message@),
        }
    }
}

/// What the background task is to do next.
#[derive(Debug, Clone, Copy, PartialEq, Eq, Structural)]
pub enum TaskAction {
    /// Configure the backend for the plan's circuit and prove, as one
    /// step that no other job's step may come between.
    ConfigureAndProve(ProvingPlan),
    /// Encode the proof in this way and report the bytes.
    Encode(ProofEncoding),
    /// Nothing: the task is over.
    Finished,
}

/// The end that an event puts a job to, if it puts it to one.
pub open spec fn task_verdict(event: TaskEventView) -> Option<JobStatusView> {
    match event {
        TaskEventView::Started => None,
        TaskEventView::Proved(variant) => if encoding_of(variant) is None {
            Some(JobStatusView::Unfulfillable("unknown proof type"@))
        } else {
            None
        },
        TaskEventView::Encoded(bytes) => Some(JobStatusView::Fulfilled(bytes)),
        TaskEventView::Failed(message) => Some(
            JobStatusView::Unfulfillable("error proving "@ + message),
        ),
    }
}

/// What the task of a job does after an event. A job the store does not
/// know has no task, and the task of a job that has reached an end is
/// over: there is one attempt per job.
pub open spec fn task_action(jobs: Map<u64, ProofJobView>, job: u64, event: TaskEventView) -> TaskAction {
    if !jobs.contains_key(job) || jobs[job].status.is_terminal() {
        TaskAction::Finished
    } else {
        match event {
            TaskEventView::Started => TaskAction::ConfigureAndProve(plan_for(jobs[job].kind)),
            TaskEventView::Proved(variant) => match encoding_of(variant) {
                Some(encoding) => TaskAction::Encode(encoding),
                None => TaskAction::Finished,
            },
            _ => TaskAction::Finished,
        }
    }
}

/// The store after a job is put to `status`: changed only if the job is
/// there and `status` may follow the state it is in.
pub open spec fn settled(jobs: Map<u64, ProofJobView>, job: u64, status: JobStatusView) -> Map<
    u64,
    ProofJobView,
> {
    if jobs.contains_key(job) && status_follows(jobs[job].status, status) {
        jobs.insert(job, ProofJobView { kind: jobs[job].kind, status })
    } else {
        jobs
    }
}

/// The store after an event of a job's task.
pub open spec fn after_task_event(jobs: Map<u64, ProofJobView>, job: u64, event: TaskEventView) -> Map<
    u64,
    ProofJobView,
> {
    match task_verdict(event) {
        Some(status) => settled(jobs, job, status),
        None => jobs,
    }
}

/// One step of a job's background task: takes what the task reports,
/// writes the job's end into the store where the report is one, and says
/// what the task is to do next. A proof is encoded by its form; a form
/// that is not relayed, and a failure of the backend, end the job as
/// unfulfillable. There is one attempt per job.
pub fn advance_job(proof_store: &mut ProofStore, job: u64, event: TaskEvent) -> (action: TaskAction)
    requires
        old(proof_store).wf(),
    ensures
        final(proof_store).wf(),
        final(proof_store).issued() == old(proof_store).issued(),
        action == task_action(old(proof_store)@, job, event@),
        final(proof_store)@ == after_task_event(old(proof_store)@, job, event@),
{
    let kind: ProofType = match proof_store.get(job) {
        None => {
            return TaskAction::Finished;
        },
        Some(record) => {
            if record.status.is_terminal() {
                return TaskAction::Finished;
            }
            record.kind
        },
    };
    match event {
        TaskEvent::Started => TaskAction::ConfigureAndProve(proving_plan(kind)),
        TaskEvent::Proved(variant) => match encoding_for(variant) {
            Some(encoding) => TaskAction::Encode(encoding),
            None => {
                let note = "unknown proof type".to_owned();
                proof_store.set(job, JobStatus::Unfulfillable(note));
                TaskAction::Finished
            },
        },
        TaskEvent::Encoded(bytes) => {
            proof_store.set(job, JobStatus::Fulfilled(bytes));
            TaskAction::Finished
        },
        TaskEvent::Failed(message) => {
            let mut note = "error proving ".to_owned();
            note.append(message.as_str());
            proof_store.set(job, JobStatus::Unfulfillable(note));
            TaskAction::Finished
        },
    }
}

/// A job that has reached an end is not changed by anything its task
/// reports afterwards, and no report changes any other job.
pub proof fn lemma_ended_jobs_stay(jobs: Map<u64, ProofJobView>, job: u64, event: TaskEventView, other: u64)
    ensures
        jobs.contains_key(job) && jobs[job].status.is_terminal() ==> after_task_event(
            jobs,
            job,
            event,
        ) == jobs,
        other != job && jobs.contains_key(other) ==> after_task_event(jobs, job, event).contains_key(
            other,
        ) && after_task_event(jobs, job, event)[other] == jobs[other],
        after_task_event(jobs, job, event).dom() == jobs.dom(),
{
    assert(after_task_event(jobs, job, event).dom() =~= jobs.dom());
}

} // verus!
