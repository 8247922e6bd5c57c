//! The symmetric primitives of verifiable encryption: ChaCha20 (without the
//! Poly1305 MAC), SHA-256 commitments and random nonces.

use vstd::prelude::*;
use vstd::slice::slice_to_vec;

use chacha20::cipher::{KeyIvInit, StreamCipher};
use chacha20::ChaCha20;
use rand::TryRngCore;
use sha2::Digest;

verus! {

/// Length of a ChaCha20 key in bytes.
pub const KEY_LEN: usize = 32;

/// Length of a SHA-256 digest in bytes.
pub const HASH_LEN: usize = 32;

/// Length of a ChaCha20 (IETF) nonce in bytes.
pub const NONCE_LEN: usize = 12;

/// Length of the committed header: key hash, nonce and plaintext hash.
pub const HEADER_LEN: usize = HASH_LEN + NONCE_LEN + HASH_LEN;

/// The longest buffer one ChaCha20 keystream covers: 2^32 - 1 blocks of 64 bytes.
pub const MAX_KEYSTREAM_LEN: u64 = 274877906880;

/// The SHA-256 digest of `data`.
pub uninterp spec fn sha256_of(data: Seq<u8>) -> Seq<u8>;

/// The first `len` bytes of the ChaCha20 keystream for `key` and `nonce`,
/// starting at block counter zero.
pub uninterp spec fn chacha20_keystream(key: Seq<u8>, nonce: Seq<u8>, len: nat) -> Seq<u8>;

/// Byte-wise exclusive or of `data` with the same-length prefix of `pad`.
pub open spec fn xor_bytes(data: Seq<u8>, pad: Seq<u8>) -> Seq<u8> {
    Seq::new(data.len(), |i: int| data[i] ^ pad[i])
}

/// What ChaCha20 makes of `data`: the data xor-ed with the keystream.
pub open spec fn chacha_spec(key: Seq<u8>, nonce: Seq<u8>, data: Seq<u8>) -> Seq<u8> {
    xor_bytes(data, chacha20_keystream(key, nonce, data.len()))
}

/// Computes the SHA-256 digest of `data` with `sha2::Sha256::digest`.
/// Trusted: the digest is named, not computed here.
#[verifier::external_body]
pub(crate) fn sha256(data: &[u8]) -> (digest: [u8; HASH_LEN])
    ensures
        digest@ == sha256_of(data@),
{
    sha2::Sha256::digest(data).into()
}

/// Encrypt or decrypt a buffer in place with ChaCha20.
///
/// This intentionally omits the Poly1305 MAC steps to reduce cycle count.
/// It is meant for an environment that guarantees integrity of the
/// ciphertext, such as a zkVM proving the execution of this function.
///
/// Trusted: calls `chacha20::ChaCha20::new` and `StreamCipher::apply_keystream`,
/// which xor the buffer with the keystream from block zero; the keystream
/// itself is named. `apply_keystream` panics on a buffer longer than the
/// 2^32 - 1 blocks of keystream, which `requires` rules out.
#[verifier::external_body]
pub fn chacha(key: &[u8; KEY_LEN], nonce: &[u8; NONCE_LEN], buffer: &mut [u8])
    requires
        old(buffer)@.len() <= MAX_KEYSTREAM_LEN,
    ensures
        final(buffer)@ == xor_bytes(old(buffer)@, chacha20_keystream(key@, nonce@, old(buffer)@.len())),
{
    let mut cipher = ChaCha20::new(key.into(), nonce.into());
    cipher.apply_keystream(buffer);
}

/// Fills `nonce` from the operating system's random number generator with
/// `rand::rngs::OsRng::try_fill_bytes`; true when the generator succeeded.
/// Trusted: nothing is said of the bytes, which come from the OS.
#[verifier::external_body]
fn fill_from_os_rng(nonce: &mut [u8; NONCE_LEN]) -> (filled: bool) {
    rand::rngs::OsRng.try_fill_bytes(nonce).is_ok()
}

/// A fresh nonce from the operating system's random number generator,
/// or `None` when the generator fails.
pub fn random_nonce() -> (nonce: Option<[u8; NONCE_LEN]>) {
    let mut nonce = [0u8; NONCE_LEN];
    if fill_from_os_rng(&mut nonce) {
        Some(nonce)
    } else {
        None
    }
}

/// Applies ChaCha20 to a copy of `data` and returns the result.
pub fn chacha_copy(key: &[u8; KEY_LEN], nonce: &[u8; NONCE_LEN], data: &[u8]) -> (out: Vec<u8>)
    requires
        data@.len() <= MAX_KEYSTREAM_LEN,
    ensures
        out@ == chacha_spec(key@, nonce@, data@),
{
    let mut buffer = slice_to_vec(data);
    chacha(key, nonce, buffer.as_mut_slice());
    buffer
}

/// Xor-ing twice with the same pad gives the data back.
pub proof fn lemma_xor_bytes_involutive(data: Seq<u8>, pad: Seq<u8>)
    ensures
        xor_bytes(xor_bytes(data, pad), pad) == data,
{
    assert forall|i: int| 0 <= i < data.len() implies #[trigger] xor_bytes(xor_bytes(data, pad), pad)[i]
        == data[i] by {
        let x = data[i];
        let y = pad[i];
        assert((x ^ y) ^ y == x) by (bit_vector);
    }
    assert(xor_bytes(xor_bytes(data, pad), pad) =~= data);
}

/// ChaCha20 decrypts what it encrypted: applying it twice with the same key
/// and nonce gives the buffer back, and it never changes a buffer's length,
/// for every buffer one keystream covers.
pub proof fn lemma_chacha_involutive(key: Seq<u8>, nonce: Seq<u8>, data: Seq<u8>)
    requires
        data.len() <= MAX_KEYSTREAM_LEN,
    ensures
        chacha_spec(key, nonce, data).len() == data.len(),
        chacha_spec(key, nonce, chacha_spec(key, nonce, data)) == data,
{
    lemma_xor_bytes_involutive(data, chacha20_keystream(key, nonce, data.len()));
}

} // verus!
