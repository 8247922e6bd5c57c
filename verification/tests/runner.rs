use pda_proxy::error::PdaRunnerError;
use pda_proxy::job::{Anchor, Input, Job, JobStatus};
use pda_proxy::retry::RetryPolicy;
use pda_proxy::rpc::{classify_method, RpcMethod};
use pda_proxy::runner::{
    request_step, RequestAction,
    after_local_proof, after_remote_request, after_remote_wait, answer_from_finished,
    answer_from_queue, error_after_finalize, initial_status, network_failure, proof_wait_failure,
    retry_reply, should_resume, unhandled_prover_error, worker_task, FinishedAnswer, StatusUpdate,
    WorkerTask, ZkNetworkError, ZkNetworkErrorKind,
};

fn internal(s: &str) -> PdaRunnerError {
    PdaRunnerError::InternalError(s.to_string())
}

#[test]
fn error_texts() {
    assert_eq!(internal("x").to_string(), "Service: x");
    assert_eq!(PdaRunnerError::ZkClientError("y".into()).to_string(), "ZK Prover: y");
    assert_eq!(PdaRunnerError::DaClientError("z".into()).to_string(), "Data Availability Node: z");
    assert_eq!(PdaRunnerError::InvalidParameter("w".into()).to_string(), "Invalid parameter: w");
    assert_eq!(internal("x").debug_string(), "InternalError(x)");
    assert_eq!(PdaRunnerError::ZkClientError("y".into()).debug_string(), "ZkClientError(y)");
    assert_eq!(PdaRunnerError::DaClientError("z".into()).debug_string(), "DaClientError(z)");
    assert_eq!(PdaRunnerError::InvalidParameter("w".into()).debug_string(), "InvalidParameter(w)");
    assert!(internal("x").clone() == internal("x"));
}

#[test]
fn status_debug_texts() {
    assert_eq!(JobStatus::LocalZkProofPending.debug_string(), "LocalZkProofPending");
    assert_eq!(JobStatus::RemoteZkProofRequesting.debug_string(), "RemoteZkProofRequesting");
    assert_eq!(JobStatus::RemoteZkProofPending([1u8; 32]).debug_string(), "RemoteZkProofPending");
    assert_eq!(JobStatus::ZkProofFinished(vec![1, 2]).debug_string(), "ZkProofFinished");
    assert_eq!(JobStatus::Failed(internal("e"), None).debug_string(), "Failed");
}

#[test]
fn status_clone_keeps_retry_status() {
    let status = JobStatus::Failed(internal("e"), Some(Box::new(JobStatus::RemoteZkProofPending([3u8; 32]))));
    assert!(status.clone() == status);
}

#[test]
fn anchor_debug_text_and_bytes() {
    let anchor = Anchor { data: vec![0x0a, 0xbc] };
    assert_eq!(anchor.debug_string(), "Anchor { data (hex): \"0abc\" }");
    assert_eq!(anchor.as_ref(), &[0x0a, 0xbc]);
}

#[test]
fn job_for_blob_data_anchors_by_sha256() {
    let job = Job::for_blob_data(b"abc".to_vec());
    assert_eq!(job.input.data, b"abc".to_vec());
    assert_eq!(
        pda_proxy::hex_text::bytes_to_hex(&job.anchor.data),
        "ba7816bf8f01cfea414140de5dae2223b00361a396177a9cb410ff61f20015ad"
    );
    assert!(Job::for_blob_data(b"abc".to_vec()) == job);
    let other = Job { anchor: Anchor { data: vec![] }, input: Input { data: vec![] } };
    assert!(other != job);
}

#[test]
fn finished_proof_is_returned() {
    match answer_from_finished(JobStatus::ZkProofFinished(vec![5, 6, 7])) {
        FinishedAnswer::Reply(r) => assert!(r == Ok(Some(vec![5, 6, 7]))),
        FinishedAnswer::Retry { .. } => panic!("a finished proof is returned"),
    }
}

#[test]
fn permanent_failure_is_reported() {
    match answer_from_finished(JobStatus::Failed(PdaRunnerError::ZkClientError("boom".into()), None)) {
        FinishedAnswer::Reply(r) => assert!(r == Err(internal("ZkClientError(boom)"))),
        FinishedAnswer::Retry { .. } => panic!("a permanent failure is not retried"),
    }
}

#[test]
fn retryable_failure_is_requeued() {
    let record = JobStatus::Failed(internal("late"), Some(Box::new(JobStatus::RemoteZkProofPending([9u8; 32]))));
    match answer_from_finished(record) {
        FinishedAnswer::Retry { status, previous } => {
            assert!(status == JobStatus::RemoteZkProofPending([9u8; 32]));
            assert!(previous == internal("late"));
        }
        FinishedAnswer::Reply(_) => panic!("a retryable failure is retried"),
    }
}

#[test]
fn pending_record_in_finished_db_is_invalid() {
    match answer_from_finished(JobStatus::LocalZkProofPending) {
        FinishedAnswer::Reply(r) => {
            assert!(r == Err(internal("PLEASE REPORT! Finished DB is in invalid state")))
        }
        FinishedAnswer::Retry { .. } => panic!("invalid record"),
    }
}

#[test]
fn retry_replies() {
    assert!(retry_reply(&internal("late"), Ok(())) == internal("Retrying! Previous error: InternalError(late)"));
    assert!(
        retry_reply(&internal("late"), Err(internal("db down")))
            == internal("PLEASE REPORT! Internal error, cannot retry: InternalError(db down)")
    );
}

#[test]
fn queue_answers() {
    assert!(answer_from_queue(&JobStatus::LocalZkProofPending, &[1]) == Ok(None));
    assert!(answer_from_queue(&JobStatus::RemoteZkProofRequesting, &[1]) == Ok(None));
    assert!(answer_from_queue(&JobStatus::RemoteZkProofPending([0; 32]), &[1]) == Ok(None));
    assert!(
        answer_from_queue(&JobStatus::ZkProofFinished(vec![]), &[0xab, 0x01])
            == Err(internal("0xab01 - Job queue is in invalid state"))
    );
}

#[test]
fn initial_status_by_prover() {
    assert!(initial_status("network") == Some(JobStatus::RemoteZkProofRequesting));
    assert!(initial_status("cuda") == Some(JobStatus::LocalZkProofPending));
    assert!(initial_status("cpu") == Some(JobStatus::LocalZkProofPending));
    assert!(initial_status("mock") == Some(JobStatus::LocalZkProofPending));
    assert!(initial_status("Network") == None);
    assert!(initial_status("") == None);
    assert!(initial_status("cpus") == None);
}

#[test]
fn worker_tasks() {
    assert!(matches!(worker_task(&JobStatus::RemoteZkProofRequesting), WorkerTask::RequestRemoteProof));
    assert!(matches!(worker_task(&JobStatus::RemoteZkProofPending([4; 32])), WorkerTask::AwaitRemoteProof(id) if id == [4; 32]));
    assert!(matches!(worker_task(&JobStatus::LocalZkProofPending), WorkerTask::ProveLocally));
    assert!(matches!(worker_task(&JobStatus::ZkProofFinished(vec![])), WorkerTask::Invalid));
    assert!(matches!(worker_task(&JobStatus::Failed(internal("e"), None)), WorkerTask::Invalid));
}

#[test]
fn worker_updates() {
    assert!(matches!(after_remote_request(Ok([2; 32])), StatusUpdate::Requeue(JobStatus::RemoteZkProofPending(id)) if id == [2; 32]));
    match after_remote_request(Err(internal("e"))) {
        StatusUpdate::Finalize(s) => assert!(s == JobStatus::Failed(internal("e"), Some(Box::new(JobStatus::RemoteZkProofRequesting)))),
        _ => panic!("a failed request is finalized"),
    }
    match after_remote_wait([3; 32], Ok(vec![1])) {
        StatusUpdate::Finalize(s) => assert!(s == JobStatus::ZkProofFinished(vec![1])),
        _ => panic!("a proof is finalized"),
    }
    match after_remote_wait([3; 32], Err(internal("e"))) {
        StatusUpdate::Finalize(s) => assert!(s == JobStatus::Failed(internal("e"), Some(Box::new(JobStatus::RemoteZkProofPending([3; 32]))))),
        _ => panic!("a failed wait is finalized"),
    }
    match after_local_proof(Ok(vec![8])) {
        StatusUpdate::Finalize(s) => assert!(s == JobStatus::ZkProofFinished(vec![8])),
        _ => panic!("a proof is finalized"),
    }
    match after_local_proof(Err(internal("e"))) {
        StatusUpdate::Finalize(s) => assert!(s == JobStatus::Failed(internal("e"), None)),
        _ => panic!("a failed proof is finalized"),
    }
}

#[test]
fn worker_result_is_what_request_returns() {
    let status = match after_local_proof(Ok(vec![4, 2])) {
        StatusUpdate::Finalize(s) => s,
        _ => panic!("a proof is finalized"),
    };
    match answer_from_finished(status) {
        FinishedAnswer::Reply(r) => assert!(r == Ok(Some(vec![4, 2]))),
        _ => panic!("a finished proof is returned"),
    }
    let status = match after_remote_request(Err(internal("net"))) {
        StatusUpdate::Finalize(s) => s,
        _ => panic!("a failed request is finalized"),
    };
    match answer_from_finished(status) {
        FinishedAnswer::Retry { status, .. } => assert!(status == JobStatus::RemoteZkProofRequesting),
        _ => panic!("a failed request is retried"),
    }
    let status = match after_remote_wait([6; 32], Err(internal("slow"))) {
        StatusUpdate::Finalize(s) => s,
        _ => panic!("a failed wait is finalized"),
    };
    match answer_from_finished(status) {
        FinishedAnswer::Retry { status, previous } => {
            assert!(status == JobStatus::RemoteZkProofPending([6; 32]));
            assert!(previous == internal("slow"));
        }
        _ => panic!("a failed wait is retried"),
    }
    let status = match after_local_proof(Err(internal("crash"))) {
        StatusUpdate::Finalize(s) => s,
        _ => panic!("a failed proof is finalized"),
    };
    match answer_from_finished(status) {
        FinishedAnswer::Reply(r) => assert!(r == Err(internal("InternalError(crash)"))),
        _ => panic!("a local failure is permanent"),
    }
}

#[test]
fn resume_at_start() {
    assert!(should_resume(&JobStatus::LocalZkProofPending));
    assert!(should_resume(&JobStatus::RemoteZkProofPending([0; 32])));
    assert!(!should_resume(&JobStatus::RemoteZkProofRequesting));
    assert!(!should_resume(&JobStatus::ZkProofFinished(vec![])));
}

fn net(kind: ZkNetworkErrorKind) -> ZkNetworkError {
    ZkNetworkError { kind, message: "oops".to_string() }
}

#[test]
fn network_failures() {
    let key = [0x0fu8, 0xf0];
    let (e, s) = network_failure(&net(ZkNetworkErrorKind::SimulationFailed), &key);
    let msg = "ZKP program critical failure: oops occurred for job 0x0ff0 PLEASE REPORT!";
    assert!(e == PdaRunnerError::DaClientError(msg.into()));
    assert!(s == JobStatus::Failed(PdaRunnerError::DaClientError(msg.into()), None));
    let (e, _) = network_failure(&net(ZkNetworkErrorKind::RequestUnexecutable), &key);
    assert!(e == PdaRunnerError::DaClientError(msg.into()));

    let msg = "ZKP network failure: oops occurred for job 0x0ff0 PLEASE REPORT!";
    for kind in [ZkNetworkErrorKind::RequestUnfulfillable, ZkNetworkErrorKind::RpcError, ZkNetworkErrorKind::Other] {
        let (e, s) = network_failure(&net(kind), &key);
        assert!(e == PdaRunnerError::DaClientError(msg.into()));
        assert!(s == JobStatus::Failed(PdaRunnerError::DaClientError(msg.into()), None));
    }

    let (e, s) = network_failure(&net(ZkNetworkErrorKind::RequestTimedOut([7; 32])), &key);
    let msg = "ZKP network: oops occurred for job 0x0ff0";
    assert!(e == PdaRunnerError::DaClientError(msg.into()));
    assert!(s == JobStatus::Failed(PdaRunnerError::DaClientError(msg.into()), Some(Box::new(JobStatus::RemoteZkProofPending([7; 32])))));
}

#[test]
fn errors_after_finalize() {
    assert!(error_after_finalize(internal("a"), Ok(())) == internal("a"));
    assert!(error_after_finalize(internal("a"), Err(internal("b"))) == internal("b"));
    assert!(unhandled_prover_error("bad") == PdaRunnerError::ZkClientError("Unhandled Error: bad PLEASE REPORT".into()));
    let (e, s) = proof_wait_failure([5; 32]);
    assert!(e == PdaRunnerError::ZkClientError("UNKNOWN ZK client error. PLEASE REPORT!".into()));
    assert!(s == JobStatus::Failed(e.clone(), Some(Box::new(JobStatus::RemoteZkProofPending([5; 32])))));
}

#[test]
fn retry_policy_counts_down() {
    let mut policy = RetryPolicy::new(2);
    assert!(!policy.retry(false));
    assert!(policy.retry(true));
    assert!(policy.retry(true));
    assert!(!policy.retry(true));
    assert!(!policy.retry(false));
    let mut none = RetryPolicy::new(0);
    assert!(!none.retry(true));
}

#[test]
fn rpc_methods() {
    assert!(matches!(classify_method("blob.Submit"), RpcMethod::BlobSubmit));
    assert!(matches!(classify_method("blob.Get"), RpcMethod::BlobGet));
    assert!(matches!(classify_method("blob.GetAll"), RpcMethod::BlobGetAll));
    assert!(matches!(classify_method("blob.GetProof"), RpcMethod::PassThrough));
    assert!(matches!(classify_method("state.Balance"), RpcMethod::PassThrough));
    assert!(matches!(classify_method(""), RpcMethod::PassThrough));
}

#[test]
fn retry_policy_retries_first_failures_only() {
    let mut policy = RetryPolicy::new(2);
    let outcomes = [true, false, true, true, false, true];
    let retried: Vec<bool> = outcomes.iter().map(|&failed| policy.retry(failed)).collect();
    assert_eq!(retried, vec![true, false, true, false, false, false]);
}

#[test]
fn request_steps() {
    match request_step(Some(JobStatus::ZkProofFinished(vec![1, 2])), None, None, &[0xaa]) {
        RequestAction::Reply(r) => assert!(r == Ok(Some(vec![1, 2]))),
        _ => panic!("a finished proof is returned"),
    }
    match request_step(
        Some(JobStatus::Failed(internal("late"), Some(Box::new(JobStatus::RemoteZkProofRequesting)))),
        None,
        None,
        &[0xaa],
    ) {
        RequestAction::Requeue { status, previous } => {
            assert!(status == JobStatus::RemoteZkProofRequesting);
            assert!(previous == internal("late"));
        }
        _ => panic!("a retryable failure is requeued"),
    }
    match request_step(None, Some(JobStatus::LocalZkProofPending), None, &[0xaa]) {
        RequestAction::Reply(r) => assert!(r == Ok(None)),
        _ => panic!("a queued job is pending"),
    }
    match request_step(None, Some(JobStatus::ZkProofFinished(vec![])), None, &[0xaa]) {
        RequestAction::Reply(r) => assert!(r == Err(internal("0xaa - Job queue is in invalid state"))),
        _ => panic!("a finished record in the queue is invalid"),
    }
    match request_step(None, None, Some("network"), &[0xaa]) {
        RequestAction::Enqueue(s) => assert!(s == JobStatus::RemoteZkProofRequesting),
        _ => panic!("a new job is queued"),
    }
    match request_step(None, None, Some("cpu"), &[0xaa]) {
        RequestAction::Enqueue(s) => assert!(s == JobStatus::LocalZkProofPending),
        _ => panic!("a new job is queued"),
    }
    assert!(matches!(request_step(None, None, Some("gpu"), &[0xaa]), RequestAction::UnknownProver));
    assert!(matches!(request_step(None, None, None, &[0xaa]), RequestAction::UnknownProver));
}
