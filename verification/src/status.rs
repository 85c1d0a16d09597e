//! Job kinds, the lifecycle of a job, and the shape in which a job's state
//! is reported to a poller.

use vstd::prelude::*;

verus! {

/// Which circuit a job proves.
#[derive(Debug, Clone, Copy, PartialEq, Eq, Structural)]
pub enum ProofType {
    Span,
    Agg,
}

/// The name of a job kind, as it is shown in messages.
pub open spec fn proof_type_name(kind: ProofType) -> Seq<char> {
    match kind {
        ProofType::Span => "span"@,
        ProofType::Agg => "agg"@,
    }
}

impl ProofType {
    /// `span` or `agg`.
    pub fn to_string(&self) -> (name: String)
        ensures
            name@ == proof_type_name(*self),
    {
        match self {
            ProofType::Span => "span".to_owned(),
            ProofType::Agg => "agg".to_owned(),
        }
    }
}

/// How far the fulfilment of a request has come, as reported to callers.
#[derive(Debug, Clone, Copy, PartialEq, Eq, Structural)]
pub enum FulfillmentStatus {
    Unspecified,
    Requested,
    Assigned,
    Fulfilled,
    Unfulfillable,
}

/// How far the execution of a request has come, as reported to callers.
#[derive(Debug, Clone, Copy, PartialEq, Eq, Structural)]
pub enum ExecutionStatus {
    Unspecified,
    Unexecuted,
    Executed,
    Unexecutable,
}

pub open spec fn fulfillment_code(s: FulfillmentStatus) -> i32 {
    match s {
        FulfillmentStatus::Unspecified => 0,
        FulfillmentStatus::Requested => 1,
        FulfillmentStatus::Assigned => 2,
        FulfillmentStatus::Fulfilled => 3,
        FulfillmentStatus::Unfulfillable => 4,
    }
}

pub open spec fn execution_code(s: ExecutionStatus) -> i32 {
    match s {
        ExecutionStatus::Unspecified => 0,
        ExecutionStatus::Unexecuted => 1,
        ExecutionStatus::Executed => 2,
        ExecutionStatus::Unexecutable => 3,
    }
}

impl FulfillmentStatus {
    /// The integer that stands for this status on the wire.
    pub fn code(&self) -> (c: i32)
        ensures
            c == fulfillment_code(*self),
    {
        match self {
            FulfillmentStatus::Unspecified => 0,
            FulfillmentStatus::Requested => 1,
            FulfillmentStatus::Assigned => 2,
            FulfillmentStatus::Fulfilled => 3,
            FulfillmentStatus::Unfulfillable => 4,
        }
    }
}

impl ExecutionStatus {
    /// The integer that stands for this status on the wire.
    pub fn code(&self) -> (c: i32)
        ensures
            c == execution_code(*self),
    {
        match self {
            ExecutionStatus::Unspecified => 0,
            ExecutionStatus::Unexecuted => 1,
            ExecutionStatus::Executed => 2,
            ExecutionStatus::Unexecutable => 3,
        }
    }
}

/// Where a job stands. A fulfilled job carries its proof bytes, an
/// unfulfillable one a note that says why.
#[derive(Debug, Clone, PartialEq, Eq)]
pub enum JobStatus {
    Requested,
    Executing,
    Fulfilled(Vec<u8>),
    Unfulfillable(String),
}

/// The mathematical value of a `JobStatus`.
pub enum JobStatusView {
    Requested,
    Executing,
    Fulfilled(Seq<u8>),
    Unfulfillable(Seq<char>),
}

impl View for JobStatus {
    type V = JobStatusView;

    open spec fn view(&self) -> JobStatusView {
        match self {
            JobStatus::Requested => JobStatusView::Requested,
            JobStatus::Executing => JobStatusView::Executing,
            JobStatus::Fulfilled(proof) => JobStatusView::Fulfilled(proof@),
            JobStatus::Unfulfillable(note) => JobStatusView::Unfulfillable(note@),
        }
    }
}

impl JobStatusView {
    /// Fulfilled and unfulfillable are the two ends of a job's life.
    pub open spec fn is_terminal(self) -> bool {
        self is Fulfilled || self is Unfulfillable
    }

    /// The bytes a job has produced: empty until it is fulfilled.
    pub open spec fn result_bytes(self) -> Seq<u8> {
        match self {
            JobStatusView::Fulfilled(proof) => proof,
            _ => Seq::empty(),
        }
    }
}

/// Whether a job in state `from` may be moved to state `to`: requested
/// jobs start executing, executing jobs end fulfilled or unfulfillable,
/// and nothing follows an end.
pub open spec fn status_follows(from: JobStatusView, to: JobStatusView) -> bool {
    match from {
        JobStatusView::Requested => to is Executing,
        JobStatusView::Executing => to.is_terminal(),
        _ => false,
    }
}

/// One job of the store.
#[derive(Debug, Clone, PartialEq, Eq)]
pub struct ProofJob {
    pub kind: ProofType,
    pub status: JobStatus,
}

/// The mathematical value of a `ProofJob`.
pub struct ProofJobView {
    pub kind: ProofType,
    pub status: JobStatusView,
}

impl View for ProofJob {
    type V = ProofJobView;

    open spec fn view(&self) -> ProofJobView {
        ProofJobView { kind: self.kind, status: self.status@ }
    }
}

/// What a poller is told about a job.
#[derive(Debug, Clone, PartialEq, Eq)]
pub struct ProofStatus {
    pub fulfillment_status: i32,
    pub execution_status: i32,
    pub proof: Vec<u8>,
}

/// The mathematical value of a `ProofStatus`.
pub struct ProofStatusView {
    pub fulfillment_status: i32,
    pub execution_status: i32,
    pub proof: Seq<u8>,
}

impl View for ProofStatus {
    type V = ProofStatusView;

    open spec fn view(&self) -> ProofStatusView {
        ProofStatusView {
            fulfillment_status: self.fulfillment_status,
            execution_status: self.execution_status,
            proof: self.proof@,
        }
    }
}

/// The report on a job in the given state. Proof bytes are handed out only
/// for a fulfilled job.
pub open spec fn status_report(status: JobStatusView) -> ProofStatusView {
    match status {
        JobStatusView::Requested => ProofStatusView {
            fulfillment_status: fulfillment_code(FulfillmentStatus::Requested),
            execution_status: execution_code(ExecutionStatus::Unexecuted),
            proof: Seq::empty(),
        },
        JobStatusView::Executing => ProofStatusView {
            fulfillment_status: fulfillment_code(FulfillmentStatus::Assigned),
            execution_status: execution_code(ExecutionStatus::Unexecuted),
            proof: Seq::empty(),
        },
        JobStatusView::Fulfilled(proof) => ProofStatusView {
            fulfillment_status: fulfillment_code(FulfillmentStatus::Fulfilled),
            execution_status: execution_code(ExecutionStatus::Executed),
            proof: proof,
        },
        JobStatusView::Unfulfillable(_) => ProofStatusView {
            fulfillment_status: fulfillment_code(FulfillmentStatus::Unfulfillable),
            execution_status: execution_code(ExecutionStatus::Unexecutable),
            proof: Seq::empty(),
        },
    }
}

/// The report on an identifier that no job was ever created under.
pub open spec fn unknown_report() -> ProofStatusView {
    ProofStatusView {
        fulfillment_status: fulfillment_code(FulfillmentStatus::Unspecified),
        execution_status: execution_code(ExecutionStatus::Unspecified),
        proof: Seq::empty(),
    }
}

/// The report of a proof that was made within the request itself.
pub open spec fn inline_report(proof: Seq<u8>) -> ProofStatusView {
    ProofStatusView {
        fulfillment_status: fulfillment_code(FulfillmentStatus::Fulfilled),
        execution_status: execution_code(ExecutionStatus::Unspecified),
        proof: proof,
    }
}

fn copy_bytes(bytes: &Vec<u8>) -> (out: Vec<u8>)
    ensures
        out@ == bytes@,
{
    let mut out: Vec<u8> = Vec::new();
    let mut i: usize = 0;
    while i < bytes.len()
        invariant
            i <= bytes.len(),
            out@ == bytes@.take(i as int),
        decreases bytes.len() - i,
    {
        out.push(bytes[i]);
        assert(bytes@.take(i as int + 1) =~= bytes@.take(i as int).push(bytes@[i as int]));
        i = i + 1;
    }
    assert(bytes@.take(bytes.len() as int) =~= bytes@);
    out
}

impl JobStatus {
    /// What a poller is told about a job in this state.
    pub fn report(&self) -> (r: ProofStatus)
        ensures
            r@ == status_report(self@),
    {
        match self {
            JobStatus::Requested => ProofStatus {
                fulfillment_status: FulfillmentStatus::Requested.code(),
                execution_status: ExecutionStatus::Unexecuted.code(),
                proof: Vec::new(),
            },
            JobStatus::Executing => ProofStatus {
                fulfillment_status: FulfillmentStatus::Assigned.code(),
                execution_status: ExecutionStatus::Unexecuted.code(),
                proof: Vec::new(),
            },
            JobStatus::Fulfilled(proof) => ProofStatus {
                fulfillment_status: FulfillmentStatus::Fulfilled.code(),
                execution_status: ExecutionStatus::Executed.code(),
                proof: copy_bytes(proof),
            },
            JobStatus::Unfulfillable(_) => ProofStatus {
                fulfillment_status: FulfillmentStatus::Unfulfillable.code(),
                execution_status: ExecutionStatus::Unexecutable.code(),
                proof: Vec::new(),
            },
        }
    }

    /// Whether the job has reached one of its two ends.
    pub fn is_terminal(&self) -> (t: bool)
        ensures
            t == self@.is_terminal(),
    {
        match self {
            JobStatus::Fulfilled(_) => true,
            JobStatus::Unfulfillable(_) => true,
            _ => false,
        }
    }
}

impl ProofStatus {
    /// The report on an identifier that no job was ever created under.
    pub fn unknown() -> (r: ProofStatus)
        ensures
            r@ == unknown_report(),
    {
        ProofStatus {
            fulfillment_status: FulfillmentStatus::Unspecified.code(),
            execution_status: ExecutionStatus::Unspecified.code(),
            proof: Vec::new(),
        }
    }

    /// The report of a proof that was made within the request itself.
    pub fn inline(proof: Vec<u8>) -> (r: ProofStatus)
        ensures
            r@ == inline_report(proof@),
    {
        ProofStatus {
            fulfillment_status: FulfillmentStatus::Fulfilled.code(),
            execution_status: ExecutionStatus::Unspecified.code(),
            proof: proof,
        }
    }
}

/// A job that has not reached an end is reported without proof bytes and
/// with codes that differ from those of an unknown identifier, and only a
/// fulfilled job is reported as fulfilled.
pub proof fn lemma_reports_tell_states_apart(status: JobStatusView)
    ensures
        status_report(status).fulfillment_status != unknown_report().fulfillment_status,
        status_report(status) != unknown_report(),
        !(status is Fulfilled) ==> status_report(status).proof == Seq::<u8>::empty(),
        status_report(status).proof == status.result_bytes(),
        status_report(status).fulfillment_status == fulfillment_code(FulfillmentStatus::Fulfilled)
            <==> status is Fulfilled,
{
}

} // verus!
