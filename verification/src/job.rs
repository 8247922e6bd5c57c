//! Jobs of the proxy: data to encrypt verifiably, the anchor that names it,
//! and the status a job moves through.

use vstd::prelude::*;
use vstd::slice::slice_to_vec;

use crate::cipher::{sha256, sha256_of};
use crate::error::{wrap, ErrorView, PdaRunnerError};
use crate::hex_text::{bytes_to_hex, lower_hex};

verus! {

/// The id the prover network gives a proof request.
pub type SuccNetJobId = [u8; 32];

/// The id of a zkVM program: the SHA-256 digest of its ELF binary.
pub type SuccNetProgramId = [u8; 32];

/// A job for the service: the input to encrypt and the anchor that names it.
#[derive(Clone, PartialEq, Eq)]
pub struct Job {
    pub anchor: Anchor,
    pub input: Input,
}

/// The input of the zkVM program for a job: the plaintext.
#[derive(Clone, PartialEq, Eq)]
pub struct Input {
    pub data: Vec<u8>,
}

/// A commitment to the input: the SHA-256 digest of the data.
#[derive(Clone, PartialEq, Eq)]
pub struct Anchor {
    pub data: Vec<u8>,
}

impl AsRef<[u8]> for Anchor {
    fn as_ref(&self) -> (bytes: &[u8])
        ensures
            bytes@ == self.data@,
    {
        self.data.as_slice()
    }
}

impl Anchor {
    /// The anchor as debug text: `Anchor { data (hex): "<hex>" }`.
    pub fn debug_string(&self) -> (text: String)
        ensures
            text@ == "Anchor { data (hex): \""@ + lower_hex(self.data@) + "\" }"@,
    {
        let hex = bytes_to_hex(self.data.as_slice());
        wrap("Anchor { data (hex): \"", hex.as_str(), "\" }")
    }
}

impl Job {
    /// The job for a blob's data: the data is the input and its SHA-256
    /// digest the anchor, so equal data makes the same job.
    pub fn for_blob_data(data: Vec<u8>) -> (job: Job)
        ensures
            job.input.data@ == data@,
            job.anchor.data@ == sha256_of(data@),
    {
        let hash = sha256(data.as_slice());
        let anchor = Anchor { data: slice_to_vec(hash.as_slice()) };
        Job { anchor, input: Input { data } }
    }
}

/// The state of a job in the service's databases.
#[derive(PartialEq, Eq)]
pub enum JobStatus {
    /// A local zk prover job has started, awaiting completion.
    LocalZkProofPending,
    /// A zk prover job is being requested from the prover network.
    RemoteZkProofRequesting,
    /// A zk prover job has been requested, awaiting its response.
    RemoteZkProofPending(SuccNetJobId),
    /// The proof is ready and the job complete: the proof with its public
    /// values, serialized.
    ZkProofFinished(Vec<u8>),
    /// A failure, with `None` when it is permanent, or with the status to
    /// retry the job from.
    Failed(PdaRunnerError, Option<Box<JobStatus>>),
}

/// A copy of `status`, the failure's retry status included.
fn clone_status(status: &JobStatus) -> (copy: JobStatus)
    ensures
        copy@ == status@,
    decreases status,
{
    match status {
        JobStatus::LocalZkProofPending => JobStatus::LocalZkProofPending,
        JobStatus::RemoteZkProofRequesting => JobStatus::RemoteZkProofRequesting,
        JobStatus::RemoteZkProofPending(id) => JobStatus::RemoteZkProofPending(*id),
        JobStatus::ZkProofFinished(proof) => JobStatus::ZkProofFinished(proof.clone()),
        JobStatus::Failed(error, retry) => {
            let retry_copy = match retry {
                Some(s) => Some(Box::new(clone_status(s))),
                None => None,
            };
            JobStatus::Failed(error.clone(), retry_copy)
        },
    }
}

impl Clone for JobStatus {
    fn clone(&self) -> (copy: Self)
        ensures
            copy@ == self@,
    {
        clone_status(self)
    }
}

/// The model of a job status: ids and proofs as byte sequences, errors by
/// their model.
pub enum StatusView {
    LocalZkProofPending,
    RemoteZkProofRequesting,
    RemoteZkProofPending(Seq<u8>),
    ZkProofFinished(Seq<u8>),
    Failed(ErrorView, Option<Box<StatusView>>),
}

impl StatusView {
    /// A status of a job still being worked on, kept in the queue.
    pub open spec fn is_pending(self) -> bool {
        match self {
            StatusView::LocalZkProofPending => true,
            StatusView::RemoteZkProofRequesting => true,
            StatusView::RemoteZkProofPending(_) => true,
            _ => false,
        }
    }

    /// A status of a job done with, successfully or not, kept in the
    /// finished database.
    pub open spec fn is_terminal(self) -> bool {
        self is ZkProofFinished || self is Failed
    }

    /// A failure retries only from a status of a job still being worked on.
    pub open spec fn well_formed(self) -> bool {
        match self {
            StatusView::Failed(_, Some(retry)) => retry.is_pending(),
            _ => true,
        }
    }

    /// The name of the status's variant, as its debug text.
    pub open spec fn debug_text(self) -> Seq<char> {
        match self {
            StatusView::LocalZkProofPending => "LocalZkProofPending"@,
            StatusView::RemoteZkProofRequesting => "RemoteZkProofRequesting"@,
            StatusView::RemoteZkProofPending(_) => "RemoteZkProofPending"@,
            StatusView::ZkProofFinished(_) => "ZkProofFinished"@,
            StatusView::Failed(_, _) => "Failed"@,
        }
    }
}

/// The model of `status`.
pub open spec fn status_view(status: JobStatus) -> StatusView
    decreases status,
{
    match status {
        JobStatus::LocalZkProofPending => StatusView::LocalZkProofPending,
        JobStatus::RemoteZkProofRequesting => StatusView::RemoteZkProofRequesting,
        JobStatus::RemoteZkProofPending(id) => StatusView::RemoteZkProofPending(id@),
        JobStatus::ZkProofFinished(proof) => StatusView::ZkProofFinished(proof@),
        JobStatus::Failed(error, retry) => StatusView::Failed(
            error@,
            match retry {
                Some(r) => Some(Box::new(status_view(*r))),
                None => None,
            },
        ),
    }
}

impl View for JobStatus {
    type V = StatusView;

    open spec fn view(&self) -> StatusView {
        status_view(*self)
    }
}

impl JobStatus {
    /// The status as debug text: the name of its variant.
    pub fn debug_string(&self) -> (text: String)
        ensures
            text@ == self@.debug_text(),
    {
        let name = match self {
            JobStatus::LocalZkProofPending => "LocalZkProofPending",
            JobStatus::RemoteZkProofRequesting => "RemoteZkProofRequesting",
            JobStatus::RemoteZkProofPending(_) => "RemoteZkProofPending",
            JobStatus::ZkProofFinished(_) => "ZkProofFinished",
            JobStatus::Failed(_, _) => "Failed",
        };
        String::from_str(name)
    }
}

} // verus!
