use pda_proxy::error::PdaRunnerError;
use pda_proxy::hex_text::bytes_to_hex;
use pda_proxy::rpc::{
    has_bearer_auth, response_step, submit_step, upstream_uri, ResponseAction, RpcMethod,
    SubmitStep, SubmittedBlob,
};

fn blob(ns: u8, data: &[u8]) -> SubmittedBlob {
    SubmittedBlob { namespace: vec![ns], data: data.to_vec() }
}

fn internal(s: &str) -> PdaRunnerError {
    PdaRunnerError::InternalError(s.to_string())
}

#[test]
fn submit_requests_blobs_in_order() {
    let blobs = vec![blob(1, b"abc"), blob(2, b"")];
    match submit_step(&blobs, &vec![], None) {
        SubmitStep::Request(job) => {
            assert_eq!(job.input.data, b"abc".to_vec());
            assert_eq!(
                bytes_to_hex(&job.anchor.data),
                "ba7816bf8f01cfea414140de5dae2223b00361a396177a9cb410ff61f20015ad"
            );
        }
        SubmitStep::Answer(_) => panic!("the first blob is requested"),
    }
    match submit_step(&blobs, &vec![], Some(Ok(Some(vec![7])))) {
        SubmitStep::Request(job) => assert!(job.input.data.is_empty()),
        SubmitStep::Answer(_) => panic!("the second blob is requested"),
    }
}

#[test]
fn submit_answers_with_proofs_in_order() {
    let blobs = vec![blob(1, b"abc"), blob(2, b"de")];
    match submit_step(&blobs, &vec![vec![7, 7]], Some(Ok(Some(vec![8])))) {
        SubmitStep::Answer(Ok(Some(out))) => {
            assert_eq!(out.len(), 2);
            assert_eq!(out[0].namespace, vec![1]);
            assert_eq!(out[0].data, vec![7, 7]);
            assert_eq!(out[1].namespace, vec![2]);
            assert_eq!(out[1].data, vec![8]);
        }
        _ => panic!("every blob is encrypted"),
    }
    match submit_step(&vec![], &vec![], None) {
        SubmitStep::Answer(Ok(Some(out))) => assert!(out.is_empty()),
        _ => panic!("no blobs, nothing to encrypt"),
    }
}

#[test]
fn submit_pending_blob_forwards_nothing() {
    let blobs = vec![blob(1, b"abc"), blob(2, b"de")];
    assert!(matches!(submit_step(&blobs, &vec![vec![7]], Some(Ok(None))), SubmitStep::Answer(Ok(None))));
    assert!(matches!(submit_step(&blobs, &vec![], Some(Ok(None))), SubmitStep::Answer(Ok(None))));
}

#[test]
fn submit_passes_runner_error_on() {
    let blobs = vec![blob(1, b"abc")];
    match submit_step(&blobs, &vec![], Some(Err(internal("db")))) {
        SubmitStep::Answer(Err(e)) => assert!(e == internal("db")),
        _ => panic!("the runner's error is the answer"),
    }
}

#[test]
fn response_actions() {
    assert!(matches!(response_step(true, RpcMethod::BlobGet, Some(vec![Ok(vec![1])])), ResponseAction::BadAuth));
    assert!(matches!(response_step(false, RpcMethod::BlobGet, None), ResponseAction::Original));
    assert!(matches!(response_step(false, RpcMethod::PassThrough, Some(vec![])), ResponseAction::Reserialize));
    assert!(matches!(response_step(false, RpcMethod::BlobSubmit, Some(vec![])), ResponseAction::Reserialize));
    assert!(matches!(
        response_step(false, RpcMethod::BlobGetAll, Some(vec![Ok(vec![1]), Err(internal("bad proof"))])),
        ResponseAction::Original
    ));
    match response_step(false, RpcMethod::BlobGetAll, Some(vec![Ok(vec![1]), Ok(vec![2, 3])])) {
        ResponseAction::Replace(out) => assert_eq!(out, vec![vec![1], vec![2, 3]]),
        _ => panic!("decrypted blobs replace the result"),
    }
    match response_step(false, RpcMethod::BlobGet, Some(vec![Ok(vec![9])])) {
        ResponseAction::Replace(out) => assert_eq!(out, vec![vec![9]]),
        _ => panic!("the decrypted blob replaces the result"),
    }
}

#[test]
fn bearer_authorization() {
    assert!(has_bearer_auth(Some("Bearer abc")));
    assert!(has_bearer_auth(Some("Bearer ")));
    assert!(!has_bearer_auth(Some("Bearer")));
    assert!(!has_bearer_auth(Some("bearer abc")));
    assert!(!has_bearer_auth(Some("Basic abc")));
    assert!(!has_bearer_auth(Some("")));
    assert!(!has_bearer_auth(None));
}

#[test]
fn upstream_uris() {
    assert_eq!(upstream_uri(false, "10.0.0.1:26658", Some("/rpc?x=1")), "https://10.0.0.1:26658/rpc?x=1");
    assert_eq!(upstream_uri(true, "localhost:26658", None), "http://localhost:26658/");
}
