//! The decisions of the job runner: how a request for verifiable encryption
//! is answered from the databases, how the worker moves a job through its
//! statuses, and how prover failures become job statuses.
//!
//! The databases, the channel to the worker and the prover clients stay with
//! the caller, which performs each step's action and hands back what came of it.

use vstd::prelude::*;
use vstd::string::StrSliceExecFns;

use crate::error::{prefixed, wrap, ErrorView, PdaRunnerError};
use crate::hex_text::{hex_encode, lower_hex};
use crate::job::{status_view, JobStatus, StatusView, SuccNetJobId};

verus! {

/// Configuration of the runner.
pub struct PdaRunnerConfig {
    /// How long to wait on the prover network, in seconds.
    pub sp1_network_timeout_secs: u64,
}

// ---------------------------------------------------------------------------
// Answering a request for a job's verifiable encryption
// ---------------------------------------------------------------------------

/// What a request does with the job's record in the finished database.
pub enum FinishedAnswer {
    /// Answer the caller with this result: the serialized proof when done.
    Reply(Result<Option<Vec<u8>>, PdaRunnerError>),
    /// Put the job back in the queue with `status` and send it to the
    /// worker; the answer then depends on whether that worked.
    Retry { status: JobStatus, previous: PdaRunnerError },
}

/// The model of a request's answer.
pub enum ReplyView {
    Proof(Seq<u8>),
    Pending,
    Error(ErrorView),
}

/// The model of a reply.
pub open spec fn reply_view(reply: Result<Option<Vec<u8>>, PdaRunnerError>) -> ReplyView {
    match reply {
        Ok(Some(proof)) => ReplyView::Proof(proof@),
        Ok(None) => ReplyView::Pending,
        Err(e) => ReplyView::Error(e@),
    }
}

/// The model of what a request does with a finished record.
pub enum FinishedAnswerView {
    Reply(ReplyView),
    Retry { status: StatusView, previous: ErrorView },
}

impl View for FinishedAnswer {
    type V = FinishedAnswerView;

    open spec fn view(&self) -> FinishedAnswerView {
        match self {
            FinishedAnswer::Reply(r) => FinishedAnswerView::Reply(reply_view(*r)),
            FinishedAnswer::Retry { status, previous } => FinishedAnswerView::Retry {
                status: status@,
                previous: previous@,
            },
        }
    }
}

/// How a request answers from the finished database: a proof is returned; a
/// permanent failure is reported; a failure that can be retried sends the job
/// back to the queue with its retry status; anything else is an invalid record.
pub open spec fn finished_answer(record: StatusView) -> FinishedAnswerView {
    match record {
        StatusView::ZkProofFinished(proof) => FinishedAnswerView::Reply(ReplyView::Proof(proof)),
        StatusView::Failed(error, None) => FinishedAnswerView::Reply(
            ReplyView::Error(ErrorView::InternalError(error.debug_text())),
        ),
        StatusView::Failed(error, Some(retry)) => FinishedAnswerView::Retry {
            status: *retry,
            previous: error,
        },
        _ => FinishedAnswerView::Reply(
            ReplyView::Error(
                ErrorView::InternalError("PLEASE REPORT! Finished DB is in invalid state"@),
            ),
        ),
    }
}

/// Decides what a request does with the job's record in the finished database.
pub fn answer_from_finished(record: JobStatus) -> (answer: FinishedAnswer)
    ensures
        answer@ == finished_answer(record@),
{
    match record {
        JobStatus::ZkProofFinished(proof) => FinishedAnswer::Reply(Ok(Some(proof))),
        JobStatus::Failed(error, None) => FinishedAnswer::Reply(
            Err(PdaRunnerError::InternalError(error.debug_string())),
        ),
        JobStatus::Failed(error, Some(retry)) => FinishedAnswer::Retry {
            status: *retry,
            previous: error,
        },
        _ => FinishedAnswer::Reply(
            Err(
                PdaRunnerError::InternalError(
                    String::from_str("PLEASE REPORT! Finished DB is in invalid state"),
                ),
            ),
        ),
    }
}

/// The error a retried request answers with.
pub open spec fn retry_error(previous: ErrorView, requeued: Result<(), ErrorView>) -> ErrorView {
    match requeued {
        Ok(_) => ErrorView::InternalError("Retrying! Previous error: "@ + previous.debug_text()),
        Err(e) => ErrorView::InternalError(
            "PLEASE REPORT! Internal error, cannot retry: "@ + e.debug_text(),
        ),
    }
}

/// The model of the outcome of a step that stores or sends.
pub open spec fn outcome_view(outcome: Result<(), PdaRunnerError>) -> Result<(), ErrorView> {
    match outcome {
        Ok(_) => Ok(()),
        Err(e) => Err(e@),
    }
}

/// The error a request answers with once it has tried to send a failed job
/// back to the worker: the request is retried in any case, and the caller is
/// told so, or told that the retry could not be scheduled.
pub fn retry_reply(previous: &PdaRunnerError, requeued: Result<(), PdaRunnerError>) -> (error: PdaRunnerError)
    ensures
        error@ == retry_error(previous@, outcome_view(requeued)),
{
    match requeued {
        Ok(_) => {
            let text = previous.debug_string();
            PdaRunnerError::InternalError(prefixed("Retrying! Previous error: ", text.as_str()))
        },
        Err(e) => {
            let text = e.debug_string();
            PdaRunnerError::InternalError(
                prefixed("PLEASE REPORT! Internal error, cannot retry: ", text.as_str()),
            )
        },
    }
}

/// How a request answers from the queue: a job still being worked on is
/// pending; anything else is an invalid record.
pub open spec fn queue_answer(record: StatusView, job_key: Seq<u8>) -> ReplyView {
    if record.is_pending() {
        ReplyView::Pending
    } else {
        ReplyView::Error(
            ErrorView::InternalError(
                "0x"@ + lower_hex(job_key) + " - Job queue is in invalid state"@,
            ),
        )
    }
}

/// Decides how a request answers from the job's record in the queue.
pub fn answer_from_queue(record: &JobStatus, job_key: &[u8]) -> (reply: Result<Option<Vec<u8>>, PdaRunnerError>)
    ensures
        reply_view(reply) == queue_answer(record@, job_key@),
{
    match record {
        JobStatus::LocalZkProofPending => Ok(None),
        JobStatus::RemoteZkProofRequesting => Ok(None),
        JobStatus::RemoteZkProofPending(_) => Ok(None),
        _ => {
            let key_hex = hex_encode(job_key);
            Err(
                PdaRunnerError::InternalError(
                    wrap("0x", key_hex.as_str(), " - Job queue is in invalid state"),
                ),
            )
        },
    }
}

/// Whether two strings hold the same characters.
pub(crate) fn str_equal(a: &str, b: &str) -> (equal: bool)
    ensures
        equal == (a@ == b@),
{
    let n = a.unicode_len();
    if n != b.unicode_len() {
        return false;
    }
    let mut i: usize = 0;
    while i < n
        invariant
            i <= n,
            n == a@.len(),
            n == b@.len(),
            forall|j: int| 0 <= j < i ==> a@[j] == b@[j],
        decreases n - i,
    {
        if a.get_char(i) != b.get_char(i) {
            return false;
        }
        i = i + 1;
    }
    assert(a@ =~= b@);
    true
}

/// The status a new job starts in for the prover named by `SP1_PROVER`: the
/// prover network is requested from; the local provers prove right away.
pub open spec fn initial_status_spec(prover: Seq<char>) -> Option<StatusView> {
    if prover == "network"@ {
        Some(StatusView::RemoteZkProofRequesting)
    } else if prover == "cuda"@ || prover == "cpu"@ || prover == "mock"@ {
        Some(StatusView::LocalZkProofPending)
    } else {
        None
    }
}

/// The status a new job is queued with, or `None` when `prover` names no
/// known prover (the service refuses to run then).
pub fn initial_status(prover: &str) -> (status: Option<JobStatus>)
    ensures
        status matches Some(s) ==> initial_status_spec(prover@) == Some(s@),
        status is None ==> initial_status_spec(prover@) is None,
{
    if str_equal(prover, "network") {
        Some(JobStatus::RemoteZkProofRequesting)
    } else if str_equal(prover, "cuda") || str_equal(prover, "cpu") || str_equal(prover, "mock") {
        Some(JobStatus::LocalZkProofPending)
    } else {
        None
    }
}

// ---------------------------------------------------------------------------
// The worker: moving a job through its statuses
// ---------------------------------------------------------------------------

/// What the worker does for a job in the queue.
pub enum WorkerTask {
    /// Request a proof from the prover network.
    RequestRemoteProof,
    /// Wait for the prover network to answer the request with this id.
    AwaitRemoteProof(SuccNetJobId),
    /// Prove with the local prover.
    ProveLocally,
    /// The queue holds a finished or failed job, which it never should.
    Invalid,
}

/// Decides the worker's task for a job's status in the queue.
pub fn worker_task(status: &JobStatus) -> (task: WorkerTask)
    ensures
        status@ == StatusView::RemoteZkProofRequesting <==> task is RequestRemoteProof,
        status@ == StatusView::LocalZkProofPending <==> task is ProveLocally,
        status@ is RemoteZkProofPending <==> task is AwaitRemoteProof,
        task matches WorkerTask::AwaitRemoteProof(id) ==> status@ == StatusView::RemoteZkProofPending(id@),
        task is Invalid <==> !status@.is_pending(),
{
    match status {
        JobStatus::RemoteZkProofRequesting => WorkerTask::RequestRemoteProof,
        JobStatus::RemoteZkProofPending(id) => WorkerTask::AwaitRemoteProof(*id),
        JobStatus::LocalZkProofPending => WorkerTask::ProveLocally,
        _ => WorkerTask::Invalid,
    }
}

/// Where the worker puts a job's new status.
pub enum StatusUpdate {
    /// Back in the queue, and the job back to the worker.
    Requeue(JobStatus),
    /// Out of the queue and into the finished database.
    Finalize(JobStatus),
}

/// The model of a status update.
pub enum UpdateView {
    Requeue(StatusView),
    Finalize(StatusView),
}

impl View for StatusUpdate {
    type V = UpdateView;

    open spec fn view(&self) -> UpdateView {
        match self {
            StatusUpdate::Requeue(s) => UpdateView::Requeue(s@),
            StatusUpdate::Finalize(s) => UpdateView::Finalize(s@),
        }
    }
}

impl UpdateView {
    /// The queue keeps only jobs still worked on, the finished database only
    /// jobs done with, and every failure retries from a pending status.
    pub open spec fn keeps_stores_valid(self) -> bool {
        match self {
            UpdateView::Requeue(s) => s.is_pending(),
            UpdateView::Finalize(s) => s.is_terminal() && s.well_formed(),
        }
    }
}

/// After requesting a remote proof: the request id is awaited next; a failed
/// request can be retried by requesting again.
pub open spec fn remote_request_update(result: Result<Seq<u8>, ErrorView>) -> UpdateView {
    match result {
        Ok(id) => UpdateView::Requeue(StatusView::RemoteZkProofPending(id)),
        Err(e) => UpdateView::Finalize(
            StatusView::Failed(e, Some(Box::new(StatusView::RemoteZkProofRequesting))),
        ),
    }
}

/// The new status after a request to the prover network.
pub fn after_remote_request(result: Result<SuccNetJobId, PdaRunnerError>) -> (update: StatusUpdate)
    ensures
        update@ == remote_request_update(
            match result {
                Ok(id) => Ok(id@),
                Err(e) => Err(e@),
            },
        ),
        update@.keeps_stores_valid(),
{
    proof {
        reveal_with_fuel(status_view, 2);
    }
    match result {
        Ok(id) => StatusUpdate::Requeue(JobStatus::RemoteZkProofPending(id)),
        Err(e) => StatusUpdate::Finalize(
            JobStatus::Failed(e, Some(Box::new(JobStatus::RemoteZkProofRequesting))),
        ),
    }
}

/// After waiting for a remote proof: the proof finishes the job; a failed
/// wait can be retried by waiting on the same request again.
pub open spec fn remote_wait_update(request_id: Seq<u8>, result: Result<Seq<u8>, ErrorView>) -> UpdateView {
    match result {
        Ok(proof) => UpdateView::Finalize(StatusView::ZkProofFinished(proof)),
        Err(e) => UpdateView::Finalize(
            StatusView::Failed(e, Some(Box::new(StatusView::RemoteZkProofPending(request_id)))),
        ),
    }
}

/// The new status after waiting for the prover network's proof.
pub fn after_remote_wait(request_id: SuccNetJobId, result: Result<Vec<u8>, PdaRunnerError>) -> (update: StatusUpdate)
    ensures
        update@ == remote_wait_update(
            request_id@,
            match result {
                Ok(p) => Ok(p@),
                Err(e) => Err(e@),
            },
        ),
        update@.keeps_stores_valid(),
{
    proof {
        reveal_with_fuel(status_view, 2);
    }
    match result {
        Ok(proof) => StatusUpdate::Finalize(JobStatus::ZkProofFinished(proof)),
        Err(e) => StatusUpdate::Finalize(
            JobStatus::Failed(e, Some(Box::new(JobStatus::RemoteZkProofPending(request_id)))),
        ),
    }
}

/// After proving locally: the proof finishes the job; a failure is permanent.
pub open spec fn local_proof_update(result: Result<Seq<u8>, ErrorView>) -> UpdateView {
    match result {
        Ok(proof) => UpdateView::Finalize(StatusView::ZkProofFinished(proof)),
        Err(e) => UpdateView::Finalize(StatusView::Failed(e, None)),
    }
}

/// The new status after proving with the local prover.
pub fn after_local_proof(result: Result<Vec<u8>, PdaRunnerError>) -> (update: StatusUpdate)
    ensures
        update@ == local_proof_update(
            match result {
                Ok(p) => Ok(p@),
                Err(e) => Err(e@),
            },
        ),
        update@.keeps_stores_valid(),
{
    proof {
        reveal_with_fuel(status_view, 2);
    }
    match result {
        Ok(proof) => StatusUpdate::Finalize(JobStatus::ZkProofFinished(proof)),
        Err(e) => StatusUpdate::Finalize(JobStatus::Failed(e, None)),
    }
}

/// Whether a job found in the queue at start-up is sent to the worker again:
/// a local proof in progress or a remote proof awaited is resumed.
pub fn should_resume(status: &JobStatus) -> (resume: bool)
    ensures
        resume <==> (status@ is LocalZkProofPending || status@ is RemoteZkProofPending),
{
    match status {
        JobStatus::LocalZkProofPending => true,
        JobStatus::RemoteZkProofPending(_) => true,
        _ => false,
    }
}

// ---------------------------------------------------------------------------
// Prover failures
// ---------------------------------------------------------------------------

/// The kinds of failure the prover network reports.
pub enum ZkNetworkErrorKind {
    SimulationFailed,
    RequestUnexecutable,
    RequestUnfulfillable,
    /// The request with this id timed out.
    RequestTimedOut(SuccNetJobId),
    RpcError,
    Other,
}

/// A failure reported by the prover network: its kind and its message.
pub struct ZkNetworkError {
    pub kind: ZkNetworkErrorKind,
    pub message: String,
}

/// The message of the error a prover network failure becomes.
pub open spec fn network_error_text(kind: ZkNetworkErrorKind, message: Seq<char>, job_key: Seq<u8>) -> Seq<char> {
    match kind {
        ZkNetworkErrorKind::SimulationFailed | ZkNetworkErrorKind::RequestUnexecutable =>
            "ZKP program critical failure: "@ + message + " occurred for job 0x"@ + lower_hex(job_key)
                + " PLEASE REPORT!"@,
        ZkNetworkErrorKind::RequestTimedOut(_) =>
            "ZKP network: "@ + message + " occurred for job 0x"@ + lower_hex(job_key),
        _ =>
            "ZKP network failure: "@ + message + " occurred for job 0x"@ + lower_hex(job_key)
                + " PLEASE REPORT!"@,
    }
}

/// The status a job fails with on a prover network failure: a timed-out
/// request can be awaited again; every other failure is permanent.
pub open spec fn network_failure_status(kind: ZkNetworkErrorKind, error: ErrorView) -> StatusView {
    match kind {
        ZkNetworkErrorKind::RequestTimedOut(id) => StatusView::Failed(
            error,
            Some(Box::new(StatusView::RemoteZkProofPending(id@))),
        ),
        _ => StatusView::Failed(error, None),
    }
}

/// The error a prover network failure becomes for the job keyed `job_key`,
/// and the status the job is finalized with.
pub fn network_failure(error: &ZkNetworkError, job_key: &[u8]) -> (outcome: (PdaRunnerError, JobStatus))
    ensures
        outcome.0@ == ErrorView::DaClientError(network_error_text(error.kind, error.message@, job_key@)),
        outcome.1@ == network_failure_status(error.kind, outcome.0@),
        outcome.1@.is_terminal(),
        outcome.1@.well_formed(),
{
    proof {
        reveal_with_fuel(status_view, 2);
    }
    let key_hex = hex_encode(job_key);
    let mut text = String::new();
    match &error.kind {
        ZkNetworkErrorKind::SimulationFailed | ZkNetworkErrorKind::RequestUnexecutable => {
            text.append("ZKP program critical failure: ");
        },
        ZkNetworkErrorKind::RequestTimedOut(_) => {
            text.append("ZKP network: ");
        },
        _ => {
            text.append("ZKP network failure: ");
        },
    }
    text.append(error.message.as_str());
    text.append(" occurred for job 0x");
    text.append(key_hex.as_str());
    match &error.kind {
        ZkNetworkErrorKind::RequestTimedOut(_) => {},
        _ => {
            text.append(" PLEASE REPORT!");
        },
    }
    let e = PdaRunnerError::DaClientError(text);
    let retry = match &error.kind {
        ZkNetworkErrorKind::RequestTimedOut(id) => Some(Box::new(JobStatus::RemoteZkProofPending(*id))),
        _ => None,
    };
    let status = JobStatus::Failed(e.clone(), retry);
    (e, status)
}

/// The error a failed proving step answers with after it has tried to
/// finalize the job: the prover's error, or the storage error that kept the
/// job from being finalized.
pub fn error_after_finalize(error: PdaRunnerError, finalized: Result<(), PdaRunnerError>) -> (answer: PdaRunnerError)
    ensures
        answer@ == match finalized {
            Ok(_) => error@,
            Err(internal) => internal@,
        },
{
    match finalized {
        Ok(_) => error,
        Err(internal) => internal,
    }
}

/// The error for a prover failure that is not one of the prover network's,
/// carrying that failure's message.
pub fn unhandled_prover_error(message: &str) -> (error: PdaRunnerError)
    ensures
        error@ == ErrorView::ZkClientError("Unhandled Error: "@ + message@ + " PLEASE REPORT"@),
{
    PdaRunnerError::ZkClientError(wrap("Unhandled Error: ", message, " PLEASE REPORT"))
}

/// The error and status when waiting for the prover network's proof fails:
/// the wait can be retried on the same request.
pub fn proof_wait_failure(request_id: SuccNetJobId) -> (outcome: (PdaRunnerError, JobStatus))
    ensures
        outcome.0@ == ErrorView::ZkClientError("UNKNOWN ZK client error. PLEASE REPORT!"@),
        outcome.1@ == StatusView::Failed(
            outcome.0@,
            Some(Box::new(StatusView::RemoteZkProofPending(request_id@))),
        ),
        outcome.1@.is_terminal(),
        outcome.1@.well_formed(),
{
    proof {
        reveal_with_fuel(status_view, 2);
    }
    let e = PdaRunnerError::ZkClientError(String::from_str("UNKNOWN ZK client error. PLEASE REPORT!"));
    let status = JobStatus::Failed(e.clone(), Some(Box::new(JobStatus::RemoteZkProofPending(request_id))));
    (e, status)
}

// ---------------------------------------------------------------------------
// Laws across the request and the worker
// ---------------------------------------------------------------------------

/// A proof the worker finishes a job with, locally or from the prover
/// network, is what a later request for that job returns.
pub proof fn lemma_finished_proof_is_returned(request_id: Seq<u8>, proof: Seq<u8>)
    ensures
        local_proof_update(Ok(proof)) == UpdateView::Finalize(StatusView::ZkProofFinished(proof)),
        remote_wait_update(request_id, Ok(proof)) == UpdateView::Finalize(
            StatusView::ZkProofFinished(proof),
        ),
        finished_answer(StatusView::ZkProofFinished(proof)) == FinishedAnswerView::Reply(
            ReplyView::Proof(proof),
        ),
{
}

/// A failed request to the prover network, or a failed wait for its proof,
/// is retried by the next request for the job from the status it failed in,
/// with the failure reported to the caller; a failure of the local prover is
/// permanent and reported as is.
pub proof fn lemma_failures_resume_where_they_failed(request_id: Seq<u8>, error: ErrorView)
    ensures
        remote_request_update(Err(error)) matches UpdateView::Finalize(s) && finished_answer(s)
            == (FinishedAnswerView::Retry {
            status: StatusView::RemoteZkProofRequesting,
            previous: error,
        }),
        remote_wait_update(request_id, Err(error)) matches UpdateView::Finalize(s)
            && finished_answer(s) == (FinishedAnswerView::Retry {
            status: StatusView::RemoteZkProofPending(request_id),
            previous: error,
        }),
        local_proof_update(Err(error)) matches UpdateView::Finalize(s) && finished_answer(s)
            == FinishedAnswerView::Reply(
            ReplyView::Error(ErrorView::InternalError(error.debug_text())),
        ),
{
}

/// Every record the worker leaves in the finished database is answered: with
/// its proof, with its error, or by sending the job back to the worker with a
/// status the worker works on. None is reported as an invalid record.
pub proof fn lemma_finished_records_are_answered(record: StatusView)
    requires
        record.is_terminal(),
        record.well_formed(),
    ensures
        finished_answer(record) matches FinishedAnswerView::Retry { status, .. } ==> status.is_pending(),
        finished_answer(record) matches FinishedAnswerView::Reply(ReplyView::Error(e)) ==> (record
            matches StatusView::Failed(f, None) && e == ErrorView::InternalError(f.debug_text())),
        finished_answer(record) matches FinishedAnswerView::Reply(ReplyView::Proof(p)) ==> record
            == StatusView::ZkProofFinished(p),
        !(finished_answer(record) is Reply && finished_answer(record)->Reply_0 is Pending),
{
}

/// A job a request queues starts in a status the worker works on, and while
/// it is in the queue every request for it is answered as pending.
pub proof fn lemma_new_jobs_are_pending(prover: Seq<char>, job_key: Seq<u8>)
    ensures
        initial_status_spec(prover) matches Some(s) ==> s.is_pending() && queue_answer(s, job_key)
            == ReplyView::Pending,
        initial_status_spec(prover) is None <==> !(prover == "network"@ || prover == "cuda"@ || prover
            == "cpu"@ || prover == "mock"@),
{
}

// ---------------------------------------------------------------------------
// The two databases
// ---------------------------------------------------------------------------

/// A model of the service's two databases: the queue of jobs being worked on
/// and the database of finished jobs, both keyed by job key.
pub struct StoresView {
    pub queue: Map<Seq<u8>, StatusView>,
    pub finished: Map<Seq<u8>, StatusView>,
}

impl StoresView {
    /// No job is in both databases; the queue holds only statuses of jobs
    /// being worked on; the finished database holds only final statuses,
    /// whose failures retry only from a status the worker works on.
    pub open spec fn valid(self) -> bool {
        &&& forall|k: Seq<u8>| !(#[trigger] self.queue.contains_key(k) && self.finished.contains_key(k))
        &&& forall|k: Seq<u8>| #[trigger] self.queue.contains_key(k) ==> self.queue[k].is_pending()
        &&& forall|k: Seq<u8>| #[trigger]
            self.finished.contains_key(k) ==> self.finished[k].is_terminal()
                && self.finished[k].well_formed()
    }

    /// The databases after a status update of the job `key`: a requeued job
    /// leaves the finished database for the queue, a finalized one leaves the
    /// queue for the finished database (each in one transaction).
    pub open spec fn apply(self, key: Seq<u8>, update: UpdateView) -> StoresView {
        match update {
            UpdateView::Requeue(s) => StoresView {
                queue: self.queue.insert(key, s),
                finished: self.finished.remove(key),
            },
            UpdateView::Finalize(s) => StoresView {
                queue: self.queue.remove(key),
                finished: self.finished.insert(key, s),
            },
        }
    }
}

/// What one request for the job `key` does, when its storing and sending
/// succeed: the databases after it, its reply, and whether it sent the job
/// to the worker.
pub struct RequestEffect {
    pub stores: StoresView,
    pub reply: ReplyView,
    pub scheduled: bool,
}

/// What a request for a job does, from the job's records.
pub enum RequestAction {
    /// Answer the caller with this result.
    Reply(Result<Option<Vec<u8>>, PdaRunnerError>),
    /// Put the job back in the queue with `status` and send it to the
    /// worker, then answer with `retry_reply(previous, ..)`.
    Requeue { status: JobStatus, previous: PdaRunnerError },
    /// Queue the new job with this status and send it to the worker, then
    /// answer pending.
    Enqueue(JobStatus),
    /// The job is new and no known prover is configured: the service stops.
    UnknownProver,
}

/// The model of what a request does.
pub enum RequestActionView {
    Reply(ReplyView),
    Requeue { status: StatusView, previous: ErrorView },
    Enqueue(StatusView),
    UnknownProver,
}

impl View for RequestAction {
    type V = RequestActionView;

    open spec fn view(&self) -> RequestActionView {
        match self {
            RequestAction::Reply(r) => RequestActionView::Reply(reply_view(*r)),
            RequestAction::Requeue { status, previous } => RequestActionView::Requeue {
                status: status@,
                previous: previous@,
            },
            RequestAction::Enqueue(s) => RequestActionView::Enqueue(s@),
            RequestAction::UnknownProver => RequestActionView::UnknownProver,
        }
    }
}

/// The model of an optional record.
pub open spec fn record_view(record: Option<JobStatus>) -> Option<StatusView> {
    match record {
        Some(s) => Some(s@),
        None => None,
    }
}

/// How a request for the job `key` decides, from its record in the finished
/// database, else its record in the queue, else (a new job) the configured
/// prover: a finished record is answered or retried, a queued one is
/// answered, and a new job is queued with its initial status.
pub open spec fn request_decision(
    finished: Option<StatusView>,
    queued: Option<StatusView>,
    key: Seq<u8>,
    prover: Option<Seq<char>>,
) -> RequestActionView {
    match finished {
        Some(record) => match finished_answer(record) {
            FinishedAnswerView::Reply(r) => RequestActionView::Reply(r),
            FinishedAnswerView::Retry { status, previous } => RequestActionView::Requeue { status, previous },
        },
        None => match queued {
            Some(record) => RequestActionView::Reply(queue_answer(record, key)),
            None => match prover {
                Some(p) => match initial_status_spec(p) {
                    Some(s) => RequestActionView::Enqueue(s),
                    None => RequestActionView::UnknownProver,
                },
                None => RequestActionView::UnknownProver,
            },
        },
    }
}

/// Decides what a request for the job keyed `job_key` does. `finished` is
/// its record in the finished database; `queued` its record in the queue,
/// read only when there is no finished one; `prover` the configured prover,
/// read only for a new job.
pub fn request_step(
    finished: Option<JobStatus>,
    queued: Option<JobStatus>,
    prover: Option<&str>,
    job_key: &[u8],
) -> (action: RequestAction)
    ensures
        action@ == request_decision(
            record_view(finished),
            record_view(queued),
            job_key@,
            match prover {
                Some(p) => Some(p@),
                None => None,
            },
        ),
{
    match finished {
        Some(record) => match answer_from_finished(record) {
            FinishedAnswer::Reply(r) => RequestAction::Reply(r),
            FinishedAnswer::Retry { status, previous } => RequestAction::Requeue { status, previous },
        },
        None => match queued {
            Some(record) => RequestAction::Reply(answer_from_queue(&record, job_key)),
            None => match prover {
                Some(p) => match initial_status(p) {
                    Some(s) => RequestAction::Enqueue(s),
                    None => RequestAction::UnknownProver,
                },
                None => RequestAction::UnknownProver,
            },
        },
    }
}

/// The record of `key` in a database.
pub open spec fn lookup(store: Map<Seq<u8>, StatusView>, key: Seq<u8>) -> Option<StatusView> {
    if store.contains_key(key) {
        Some(store[key])
    } else {
        None
    }
}

/// A request for the job `key` with the prover named `prover`, as
/// `request_step` decides it from the databases' records, when its storing
/// and sending succeed. `None` when the service stops instead.
pub open spec fn request_effect(stores: StoresView, key: Seq<u8>, prover: Seq<char>) -> Option<RequestEffect> {
    match request_decision(lookup(stores.finished, key), lookup(stores.queue, key), key, Some(prover)) {
        RequestActionView::Reply(r) => Some(RequestEffect { stores, reply: r, scheduled: false }),
        RequestActionView::Requeue { status, previous } => Some(
            RequestEffect {
                stores: stores.apply(key, UpdateView::Requeue(status)),
                reply: ReplyView::Error(retry_error(previous, Ok(()))),
                scheduled: true,
            },
        ),
        RequestActionView::Enqueue(s) => Some(
            RequestEffect {
                stores: StoresView { queue: stores.queue.insert(key, s), finished: stores.finished },
                reply: ReplyView::Pending,
                scheduled: true,
            },
        ),
        RequestActionView::UnknownProver => None,
    }
}

/// Every status update the worker makes keeps the databases valid: a job is
/// always either queued with a status being worked on or finished with a
/// final one, never both.
pub proof fn lemma_updates_keep_stores_valid(stores: StoresView, key: Seq<u8>, update: UpdateView)
    requires
        stores.valid(),
        update.keeps_stores_valid(),
    ensures
        stores.apply(key, update).valid(),
{
    let next = stores.apply(key, update);
    assert forall|k: Seq<u8>| !(#[trigger] next.queue.contains_key(k) && next.finished.contains_key(k)) by {
        if k != key {
            assert(next.queue.contains_key(k) == stores.queue.contains_key(k));
            assert(next.finished.contains_key(k) == stores.finished.contains_key(k));
        }
    }
}

/// Every request keeps the databases valid.
pub proof fn lemma_requests_keep_stores_valid(stores: StoresView, key: Seq<u8>, prover: Seq<char>)
    requires
        stores.valid(),
    ensures
        request_effect(stores, key, prover) matches Some(e) ==> e.stores.valid(),
{
    if stores.finished.contains_key(key) {
        let record = stores.finished[key];
        if let FinishedAnswerView::Retry { status, previous } = finished_answer(record) {
            assert(status.is_pending());
            lemma_updates_keep_stores_valid(stores, key, UpdateView::Requeue(status));
        }
    } else if !stores.queue.contains_key(key) {
        if let Some(s) = initial_status_spec(prover) {
            let next = StoresView { queue: stores.queue.insert(key, s), finished: stores.finished };
            assert forall|k: Seq<u8>| !(#[trigger] next.queue.contains_key(k) && next.finished.contains_key(k)) by {
                if k != key {
                    assert(next.queue.contains_key(k) == stores.queue.contains_key(k));
                }
            }
        }
    }
}

/// A new job is queued and sent to the worker once: a first request answers
/// pending and schedules it; a second request for the same job key before
/// the worker moves it answers pending, changes neither database and
/// schedules nothing.
pub proof fn lemma_repeated_request_schedules_once(stores: StoresView, key: Seq<u8>, prover: Seq<char>)
    requires
        stores.valid(),
        !stores.queue.contains_key(key),
        !stores.finished.contains_key(key),
        initial_status_spec(prover) is Some,
    ensures
        request_effect(stores, key, prover) matches Some(first) && first.reply == ReplyView::Pending
            && first.scheduled && first.stores.queue.contains_key(key) && (request_effect(
            first.stores,
            key,
            prover,
        ) matches Some(second) && second.reply == ReplyView::Pending && !second.scheduled
            && second.stores == first.stores),
{
    let first = request_effect(stores, key, prover).unwrap();
    assert(first.stores.queue.contains_key(key));
    assert(!first.stores.finished.contains_key(key));
}

// ---------------------------------------------------------------------------
// Laws of the request's and the worker's single steps
// ---------------------------------------------------------------------------

/// A request for a job with a finished record is answered from that record,
/// whatever the queue and the prover: a proof is returned as is, a permanent
/// failure is reported as an internal error carrying the failure's debug
/// text, a retryable failure is requeued from its retry status, and any other
/// record is reported invalid. Such a request is never answered pending.
pub proof fn lemma_finished_record_answers_request(
    record: StatusView,
    queued: Option<StatusView>,
    key: Seq<u8>,
    prover: Option<Seq<char>>,
)
    ensures
        record matches StatusView::ZkProofFinished(p) ==> request_decision(Some(record), queued, key, prover)
            == RequestActionView::Reply(ReplyView::Proof(p)),
        record matches StatusView::Failed(e, None) ==> request_decision(Some(record), queued, key, prover)
            == RequestActionView::Reply(ReplyView::Error(ErrorView::InternalError(e.debug_text()))),
        record matches StatusView::Failed(e, Some(r)) ==> request_decision(Some(record), queued, key, prover)
            == (RequestActionView::Requeue { status: *r, previous: e }),
        record.is_pending() ==> request_decision(Some(record), queued, key, prover)
            == RequestActionView::Reply(
            ReplyView::Error(
                ErrorView::InternalError("PLEASE REPORT! Finished DB is in invalid state"@),
            ),
        ),
        request_decision(Some(record), queued, key, prover) != RequestActionView::Reply(ReplyView::Pending),
        !(request_decision(Some(record), queued, key, prover) is Enqueue),
{
}

/// A request for a job with no finished record but a queued one answers
/// pending exactly when the job is still worked on (a local proof, a network
/// request being made, or one being awaited under any id); any other queued
/// record is reported invalid, naming the job by its hex key.
pub proof fn lemma_queued_record_answers_request(
    record: StatusView,
    request_id: Seq<u8>,
    key: Seq<u8>,
    prover: Option<Seq<char>>,
)
    ensures
        request_decision(None, Some(StatusView::LocalZkProofPending), key, prover)
            == RequestActionView::Reply(ReplyView::Pending),
        request_decision(None, Some(StatusView::RemoteZkProofRequesting), key, prover)
            == RequestActionView::Reply(ReplyView::Pending),
        request_decision(None, Some(StatusView::RemoteZkProofPending(request_id)), key, prover)
            == RequestActionView::Reply(ReplyView::Pending),
        (record is ZkProofFinished || record is Failed) ==> request_decision(None, Some(record), key, prover)
            == RequestActionView::Reply(
            ReplyView::Error(
                ErrorView::InternalError("0x"@ + lower_hex(key) + " - Job queue is in invalid state"@),
            ),
        ),
{
}

/// A request for a new job queues it with the status its prover starts in:
/// the prover network's job is requested, a local prover's job is proved;
/// with no known prover nothing is queued.
pub proof fn lemma_new_job_request(key: Seq<u8>, prover: Seq<char>)
    ensures
        prover == "network"@ ==> request_decision(None, None, key, Some(prover))
            == RequestActionView::Enqueue(StatusView::RemoteZkProofRequesting),
        (prover == "cuda"@ || prover == "cpu"@ || prover == "mock"@) ==> request_decision(
            None,
            None,
            key,
            Some(prover),
        ) == RequestActionView::Enqueue(StatusView::LocalZkProofPending),
        request_decision(None, None, key, None) == RequestActionView::UnknownProver,
{
    reveal_strlit("network");
    reveal_strlit("cuda");
    reveal_strlit("cpu");
    reveal_strlit("mock");
    assert("network"@.len() == 7);
    assert("cuda"@.len() == 4 && "cpu"@.len() == 3 && "mock"@.len() == 4);
    assert("cuda"@ != "network"@ && "cpu"@ != "network"@ && "mock"@ != "network"@);
}

/// A successful request to the prover network requeues the job awaiting
/// exactly the id the network returned, so the worker's next task waits on
/// that request; a failed one is finalized to be requested again.
pub proof fn lemma_requested_id_is_awaited(id: Seq<u8>, error: ErrorView)
    ensures
        remote_request_update(Ok(id)) == UpdateView::Requeue(StatusView::RemoteZkProofPending(id)),
        remote_request_update(Ok(id)) matches UpdateView::Requeue(StatusView::RemoteZkProofPending(
            awaited,
        )) && awaited == id,
        remote_request_update(Err(error)) == UpdateView::Finalize(
            StatusView::Failed(error, Some(Box::new(StatusView::RemoteZkProofRequesting))),
        ),
{
}

/// Of the prover network's failures only a timed-out request can be
/// retried, by awaiting the same request again; every other failure is
/// permanent. The two program failures (simulation failed, request
/// unexecutable) read alike, and every message names the job by its hex key.
pub proof fn lemma_only_timeouts_retry(kind: ZkNetworkErrorKind, error: ErrorView, message: Seq<char>, job_key: Seq<u8>)
    ensures
        !(kind is RequestTimedOut) ==> network_failure_status(kind, error) == StatusView::Failed(error, None),
        kind matches ZkNetworkErrorKind::RequestTimedOut(id) ==> network_failure_status(kind, error)
            == StatusView::Failed(error, Some(Box::new(StatusView::RemoteZkProofPending(id@)))),
        network_error_text(ZkNetworkErrorKind::SimulationFailed, message, job_key) == network_error_text(
            ZkNetworkErrorKind::RequestUnexecutable,
            message,
            job_key,
        ),
        network_error_text(ZkNetworkErrorKind::SimulationFailed, message, job_key)
            == "ZKP program critical failure: "@ + message + " occurred for job 0x"@ + lower_hex(job_key)
            + " PLEASE REPORT!"@,
        (kind is RequestUnfulfillable || kind is RpcError || kind is Other) ==> network_error_text(
            kind,
            message,
            job_key,
        ) == "ZKP network failure: "@ + message + " occurred for job 0x"@ + lower_hex(job_key)
            + " PLEASE REPORT!"@,
        kind is RequestTimedOut ==> network_error_text(kind, message, job_key) == "ZKP network: "@ + message
            + " occurred for job 0x"@ + lower_hex(job_key),
{
}

} // verus!
