//! The JSON-RPC methods of the data availability node that the proxy
//! handles itself.

use vstd::prelude::*;
use vstd::string::StrSliceExecFns;

use crate::cipher::sha256_of;
use crate::error::PdaRunnerError;
use crate::job::Job;
use crate::runner::{reply_view, str_equal, ReplyView};

verus! {

/// Server of the node's `blob` namespace.
pub struct BlobServerImpl;

/// Server of the node's `state` namespace.
pub struct StateServerImpl;

/// How the proxy treats a JSON-RPC call, by its method.
pub enum RpcMethod {
    /// `blob.Submit`: the blobs are encrypted verifiably before forwarding.
    BlobSubmit,
    /// `blob.Get`: the returned blob is verified and decrypted.
    BlobGet,
    /// `blob.GetAll`: each returned blob is verified and decrypted.
    BlobGetAll,
    /// Any other call is forwarded unchanged.
    PassThrough,
}

/// How the proxy treats a call to `method`.
pub open spec fn rpc_method_spec(method: Seq<char>) -> RpcMethod {
    if method == "blob.Submit"@ {
        RpcMethod::BlobSubmit
    } else if method == "blob.Get"@ {
        RpcMethod::BlobGet
    } else if method == "blob.GetAll"@ {
        RpcMethod::BlobGetAll
    } else {
        RpcMethod::PassThrough
    }
}

/// Decides how the proxy treats a call to `method`.
pub fn classify_method(method: &str) -> (kind: RpcMethod)
    ensures
        kind == rpc_method_spec(method@),
{
    if str_equal(method, "blob.Submit") {
        RpcMethod::BlobSubmit
    } else if str_equal(method, "blob.Get") {
        RpcMethod::BlobGet
    } else if str_equal(method, "blob.GetAll") {
        RpcMethod::BlobGetAll
    } else {
        RpcMethod::PassThrough
    }
}

// ---------------------------------------------------------------------------
// `blob.Submit`: encrypting the submitted blobs before forwarding
// ---------------------------------------------------------------------------

/// A blob of a `blob.Submit` call: its namespace and its data.
pub struct SubmittedBlob {
    pub namespace: Vec<u8>,
    pub data: Vec<u8>,
}

/// What to do next with a `blob.Submit` call.
pub enum SubmitStep {
    /// Ask the runner for the verifiable encryption of this job.
    Request(Job),
    /// Answer the call: with the blobs to forward, their data replaced by
    /// the proofs; `None` when a blob's encryption is still pending, so that
    /// no plaintext is ever forwarded; or the runner's error.
    Answer(Result<Option<Vec<SubmittedBlob>>, PdaRunnerError>),
}

/// The proofs collected so far, with the one `last` brings, if any.
pub open spec fn collected_proofs(proofs: Seq<Vec<u8>>, last: Option<ReplyView>) -> Seq<Seq<u8>> {
    let done = proofs.map_values(|p: Vec<u8>| p@);
    match last {
        Some(ReplyView::Proof(p)) => done.push(p),
        _ => done,
    }
}

/// The model of the runner's answer for the latest requested blob.
pub open spec fn last_view(last: Option<Result<Option<Vec<u8>>, PdaRunnerError>>) -> Option<ReplyView> {
    match last {
        Some(r) => Some(reply_view(r)),
        None => None,
    }
}

/// Decides the next step of a `blob.Submit` call. The blobs are encrypted
/// in order: `proofs` holds the proofs of the first blobs, and `last` is the
/// runner's answer for the blob after them, when one was asked for. The call
/// is answered pending as soon as one blob is; a runner error is passed on.
pub fn submit_step(
    blobs: &Vec<SubmittedBlob>,
    proofs: &Vec<Vec<u8>>,
    last: Option<Result<Option<Vec<u8>>, PdaRunnerError>>,
) -> (step: SubmitStep)
    requires
        proofs@.len() <= blobs@.len(),
        last matches Some(Ok(Some(_))) ==> proofs@.len() < blobs@.len(),
    ensures
        last_view(last) == Some(ReplyView::Pending) <==> step matches SubmitStep::Answer(Ok(None)),
        last_view(last) matches Some(ReplyView::Error(e)) ==> (step matches SubmitStep::Answer(Err(e2))
            && e2@ == e),
        step matches SubmitStep::Answer(Err(_)) ==> (last_view(last) matches Some(ReplyView::Error(_))),
        ({
            let done = collected_proofs(proofs@, last_view(last));
            (last is None || last_view(last) matches Some(ReplyView::Proof(_))) ==> {
                &&& done.len() < blobs@.len() ==> (step matches SubmitStep::Request(j) && j.input.data@
                    == blobs@[done.len() as int].data@ && j.anchor.data@ == sha256_of(
                    blobs@[done.len() as int].data@,
                ))
                &&& done.len() == blobs@.len() ==> (step matches SubmitStep::Answer(Ok(Some(out)))
                    && out@.len() == blobs@.len() && forall|i: int|
                    0 <= i < blobs@.len() ==> (#[trigger] out@[i]).namespace@ == blobs@[i].namespace@
                        && out@[i].data@ == done[i])
            }
        }),
{
    let nb = blobs.len();
    let mut next = proofs.len();
    let mut extra: Option<Vec<u8>> = None;
    match last {
        Some(Ok(None)) => {
            return SubmitStep::Answer(Ok(None));
        },
        Some(Err(e)) => {
            return SubmitStep::Answer(Err(e));
        },
        Some(Ok(Some(p))) => {
            next = next + 1;
            extra = Some(p);
        },
        None => {},
    }
    let ghost done = collected_proofs(proofs@, last_view(last));
    if next < blobs.len() {
        let job = Job::for_blob_data(blobs[next].data.clone());
        return SubmitStep::Request(job);
    }
    let mut out: Vec<SubmittedBlob> = Vec::new();
    let mut i: usize = 0;
    while i < proofs.len()
        invariant
            i <= proofs@.len(),
            proofs@.len() <= blobs@.len(),
            done.len() == blobs@.len(),
            forall|k: int| 0 <= k < proofs@.len() ==> done[k] == #[trigger] proofs@[k]@,
            out@.len() == i,
            forall|k: int|
                0 <= k < i ==> #[trigger] out@[k].namespace@ == blobs@[k].namespace@ && out@[k].data@
                    == done[k],
        decreases proofs@.len() - i,
    {
        let namespace = blobs[i].namespace.clone();
        let data = proofs[i].clone();
        assert(namespace@ =~= blobs@[i as int].namespace@);
        assert(data@ =~= proofs@[i as int]@);
        out.push(SubmittedBlob { namespace, data });
        i = i + 1;
    }
    match extra {
        Some(p) => {
            let k = proofs.len();
            let namespace = blobs[k].namespace.clone();
            assert(namespace@ =~= blobs@[k as int].namespace@);
            out.push(SubmittedBlob { namespace, data: p });
        },
        None => {},
    }
    SubmitStep::Answer(Ok(Some(out)))
}

// ---------------------------------------------------------------------------
// `blob.Get` and `blob.GetAll`: decrypting the returned blobs
// ---------------------------------------------------------------------------

/// What to answer the client with, once the node has responded.
pub enum ResponseAction {
    /// The node refused the call's authorization: tell the client so.
    BadAuth,
    /// Forward the node's response as it came.
    Original,
    /// Forward the node's response, serialized again.
    Reserialize,
    /// Forward the response with the returned blobs' data replaced by these
    /// plaintexts, in order.
    Replace(Vec<Vec<u8>>),
}

/// Whether the proxy decrypts what a call to `method` returns.
pub open spec fn decrypts(method: RpcMethod) -> bool {
    method is BlobGet || method is BlobGetAll
}

/// Decides how to answer from the node's response. `plaintexts` is `None`
/// when the response has no result the call's method can read, and else the
/// outcome of verifying and decrypting each returned blob (none for a method
/// whose results are not decrypted). A response that cannot be decrypted is
/// passed on unchanged.
pub fn response_step(
    unauthorized: bool,
    method: RpcMethod,
    plaintexts: Option<Vec<Result<Vec<u8>, PdaRunnerError>>>,
) -> (action: ResponseAction)
    ensures
        unauthorized ==> action is BadAuth,
        !unauthorized && plaintexts is None ==> action is Original,
        !unauthorized && plaintexts is Some && !decrypts(method) ==> action is Reserialize,
        !unauthorized && decrypts(method) && (plaintexts matches Some(list) && exists|i: int|
            0 <= i < list@.len() && #[trigger] list@[i] is Err) ==> action is Original,
        !unauthorized && decrypts(method) && (plaintexts matches Some(list) && forall|i: int|
            0 <= i < list@.len() ==> #[trigger] list@[i] is Ok) ==> (action matches ResponseAction::Replace(
            out,
        ) && out@.len() == plaintexts->0@.len() && forall|i: int|
            0 <= i < out@.len() ==> (#[trigger] out@[i])@ == plaintexts->0@[i]->Ok_0@),
{
    if unauthorized {
        return ResponseAction::BadAuth;
    }
    let list = match plaintexts {
        None => {
            return ResponseAction::Original;
        },
        Some(list) => list,
    };
    match method {
        RpcMethod::BlobGet | RpcMethod::BlobGetAll => {},
        _ => {
            return ResponseAction::Reserialize;
        },
    }
    let ghost original = list@;
    let mut out: Vec<Vec<u8>> = Vec::new();
    let mut i: usize = 0;
    let n = list.len();
    while i < n
        invariant
            i <= n,
            n == original.len(),
            list@ == original,
            !unauthorized,
            decrypts(method),
            plaintexts matches Some(l) && l@ == original,
            out@.len() == i,
            forall|k: int| 0 <= k < i ==> #[trigger] original[k] is Ok,
            forall|k: int| 0 <= k < i ==> (#[trigger] out@[k])@ == original[k]->Ok_0@,
        decreases n - i,
    {
        match &list[i] {
            Ok(p) => {
                let copy = p.clone();
                assert(copy@ =~= original[i as int]->Ok_0@);
                out.push(copy);
            },
            Err(_) => {
                return ResponseAction::Original;
            },
        }
        i = i + 1;
    }
    ResponseAction::Replace(out)
}

// ---------------------------------------------------------------------------
// Authorization and forwarding
// ---------------------------------------------------------------------------

/// Whether `text` begins with `prefix`.
fn starts_with(text: &str, prefix: &str) -> (yes: bool)
    ensures
        yes == (prefix@.len() <= text@.len() && text@.subrange(0, prefix@.len() as int) == prefix@),
{
    let n = prefix.unicode_len();
    if n > text.unicode_len() {
        return false;
    }
    let mut i: usize = 0;
    while i < n
        invariant
            i <= n,
            n == prefix@.len(),
            n <= text@.len(),
            forall|j: int| 0 <= j < i ==> text@[j] == prefix@[j],
        decreases n - i,
    {
        if text.get_char(i) != prefix.get_char(i) {
            assert(text@.subrange(0, n as int)[i as int] != prefix@[i as int]);
            return false;
        }
        i = i + 1;
    }
    assert(text@.subrange(0, n as int) =~= prefix@);
    true
}

/// Whether a call carries a bearer token: its `authorization` header (when
/// present and readable as text) begins with `Bearer `. The node drops any
/// call without one, so the proxy refuses it first.
pub fn has_bearer_auth(authorization: Option<&str>) -> (ok: bool)
    ensures
        ok <==> (authorization matches Some(h) && "Bearer "@.len() <= h@.len() && h@.subrange(
            0,
            "Bearer "@.len() as int,
        ) == "Bearer "@),
{
    match authorization {
        Some(h) => starts_with(h, "Bearer "),
        None => false,
    }
}

/// Where a call is forwarded: the node's address, over `http` when plain
/// HTTP upstream is allowed and `https` otherwise, with the call's path and
/// query, or `/` when it has none.
pub open spec fn upstream_uri_spec(plain_http: bool, node: Seq<char>, path_and_query: Option<Seq<char>>) -> Seq<char> {
    (if plain_http {
        "http"@
    } else {
        "https"@
    }) + "://"@ + node + match path_and_query {
        Some(p) => p,
        None => "/"@,
    }
}

/// The URI a call is forwarded to.
pub fn upstream_uri(plain_http: bool, node: &str, path_and_query: Option<&str>) -> (uri: String)
    ensures
        uri@ == upstream_uri_spec(
            plain_http,
            node@,
            match path_and_query {
                Some(p) => Some(p@),
                None => None,
            },
        ),
{
    let mut uri = if plain_http {
        String::from_str("http")
    } else {
        String::from_str("https")
    };
    uri.append("://");
    uri.append(node);
    match path_and_query {
        Some(p) => uri.append(p),
        None => uri.append("/"),
    }
    uri
}

/// The forwarding URI's scheme depends on `plain_http` alone: it begins
/// with `http://` when plain HTTP upstream is allowed and `https://`
/// otherwise, whatever the path and query; after the scheme come the node's
/// address and the path and query, or `/` when there is none.
pub proof fn lemma_upstream_uri_scheme(plain_http: bool, node: Seq<char>, path_and_query: Option<Seq<char>>)
    ensures
        ({
            let uri = upstream_uri_spec(plain_http, node, path_and_query);
            let rest = node + match path_and_query {
                Some(p) => p,
                None => "/"@,
            };
            &&& plain_http ==> uri == "http://"@ + rest
            &&& !plain_http ==> uri == "https://"@ + rest
            &&& plain_http ==> uri.subrange(0, 7) == "http://"@
            &&& !plain_http ==> uri.subrange(0, 8) == "https://"@
            &&& !plain_http ==> uri.subrange(0, 7) != "http://"@
        }),
{
    reveal_strlit("http");
    reveal_strlit("https");
    reveal_strlit("://");
    reveal_strlit("http://");
    reveal_strlit("https://");
    reveal_strlit("/");
    let uri = upstream_uri_spec(plain_http, node, path_and_query);
    let rest = node + match path_and_query {
        Some(p) => p,
        None => "/"@,
    };
    if plain_http {
        assert("http"@ + "://"@ =~= "http://"@);
        assert(uri =~= "http://"@ + rest);
        assert(uri.subrange(0, 7) =~= "http://"@);
    } else {
        assert("https"@ + "://"@ =~= "https://"@);
        assert(uri =~= "https://"@ + rest);
        assert(uri.subrange(0, 8) =~= "https://"@);
        assert(uri.subrange(0, 7)[4] == 's');
        assert("http://"@[4] == ':');
    }
}

} // verus!
