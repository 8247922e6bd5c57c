# pda-proxy

Private data availability for Celestia: blobs submitted through the proxy are
encrypted with ChaCha20 inside a zkVM, and the proof of that encryption is
what is posted; blobs read back are verified and decrypted.

Layout:

- `src/` — the verified library:
  - `cipher.rs` ChaCha20, SHA-256 and random nonces, with the keystream and
    digest as named functions; ChaCha20 is its own inverse.
  - `zkvm.rs` the public values the encryption program commits, how they are
    parsed (`ZkvmOutput::from_bytes`) and decrypted; the round-trip law.
  - `hex_text.rs` lowercase hex text and hex-encoded keys; the round-trip law.
  - `error.rs`, `job.rs` the runner's error, jobs, anchors and job statuses,
    with their models.
  - `runner.rs` the runner's decisions: answering a request from the
    finished database and the queue, the worker's status updates, prover
    failures; a model of the two databases and laws across them.
  - `retry.rs` the retry budget for requests to the node.
  - `rpc.rs` which JSON-RPC methods the proxy intercepts, the steps of
    encrypting a `blob.Submit` call and of answering from the node's
    response, the authorization check and the forwarding URI.
- `app/` — the service around it: TLS and HTTP, JSON-RPC bodies, the sled
  databases, the worker channel and the SP1 prover clients.
- `tests/` — tests of the library on concrete values.
