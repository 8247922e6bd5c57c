//! Private data availability: verifiable ChaCha20 encryption of blobs and the
//! job bookkeeping of the proxy service that requests proofs of it.

pub mod cipher;
pub mod zkvm;
pub mod hex_text;
pub mod error;
pub mod job;
pub mod runner;
pub mod retry;
pub mod rpc;
