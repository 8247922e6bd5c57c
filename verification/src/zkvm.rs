//! The public values committed by the verifiable-encryption zkVM program, and
//! how the proxy reads and decrypts them.

use vstd::prelude::*;
use vstd::slice::slice_to_vec;

use crate::error::wrap;
use crate::hex_text::{bytes_to_hex, lower_hex};
use crate::job::SuccNetProgramId;
use crate::cipher::{
    chacha, chacha_spec, lemma_chacha_involutive, sha256, sha256_of, HASH_LEN, HEADER_LEN, KEY_LEN,
    MAX_KEYSTREAM_LEN, NONCE_LEN,
};

verus! {

/// The public output of the encryption program, read back from a proof:
/// `privkey_hash ++ nonce ++ plaintext_hash ++ ciphertext`.
pub struct ZkvmOutput<'a> {
    pub privkey_hash: [u8; HASH_LEN],
    pub nonce: [u8; NONCE_LEN],
    pub plaintext_hash: [u8; HASH_LEN],
    pub ciphertext: &'a [u8],
}

/// Copies `N` bytes of `data` starting at `start` into an array.
fn copy_array<const N: usize>(data: &[u8], start: usize) -> (out: [u8; N])
    requires
        start + N <= data@.len(),
    ensures
        out@ == data@.subrange(start as int, start + N),
{
    let mut out = [0u8; N];
    let len = data.len();
    let mut i: usize = 0;
    while i < N
        invariant
            i <= N,
            len == data@.len(),
            start + N <= data@.len(),
            out@.len() == N,
            forall|j: int| 0 <= j < i ==> out@[j] == data@[start + j],
        decreases N - i,
    {
        out[i] = data[start + i];
        i = i + 1;
    }
    assert(out@ =~= data@.subrange(start as int, start + N));
    out
}

impl<'a> ZkvmOutput<'a> {
    /// The bytes this output was read from.
    pub open spec fn bytes(&self) -> Seq<u8> {
        self.privkey_hash@ + self.nonce@ + self.plaintext_hash@ + self.ciphertext@
    }

    /// The output as debug text, the ciphertext shown by its SHA-256 digest:
    /// `ZkvmOutput { privkey_hash: "..", nonce: "..", plaintext_hash: "..", ciphertext_sha256: ".." }`.
    pub fn debug_string(&self) -> (text: String)
        ensures
            text@ == "ZkvmOutput { privkey_hash: \""@ + lower_hex(self.privkey_hash@)
                + "\", nonce: \""@ + lower_hex(self.nonce@) + "\", plaintext_hash: \""@
                + lower_hex(self.plaintext_hash@) + "\", ciphertext_sha256: \""@
                + lower_hex(sha256_of(self.ciphertext@)) + "\" }"@,
    {
        let ciphertext_hash = sha256(self.ciphertext);
        let mut text = wrap(
            "ZkvmOutput { privkey_hash: \"",
            bytes_to_hex(self.privkey_hash.as_slice()).as_str(),
            "\", nonce: \"",
        );
        text.append(bytes_to_hex(self.nonce.as_slice()).as_str());
        text.append("\", plaintext_hash: \"");
        text.append(bytes_to_hex(self.plaintext_hash.as_slice()).as_str());
        text.append("\", ciphertext_sha256: \"");
        text.append(bytes_to_hex(ciphertext_hash.as_slice()).as_str());
        text.append("\" }");
        text
    }

    /// Splits the public values of a proof into the committed header fields
    /// and the ciphertext that follows them.
    pub fn from_bytes(data: &'a [u8]) -> (res: Result<Self, &'static str>)
        ensures
            res is Err <==> data@.len() < HEADER_LEN,
            res matches Err(e) ==> e@ == "Input too short for header"@,
            res matches Ok(out) ==> {
                &&& out.privkey_hash@ == data@.subrange(0, HASH_LEN as int)
                &&& out.nonce@ == data@.subrange(HASH_LEN as int, (HASH_LEN + NONCE_LEN) as int)
                &&& out.plaintext_hash@ == data@.subrange((HASH_LEN + NONCE_LEN) as int, HEADER_LEN as int)
                &&& out.ciphertext@ == data@.subrange(HEADER_LEN as int, data@.len() as int)
                &&& out.bytes() == data@
            },
    {
        if data.len() < HEADER_LEN {
            return Err("Input too short for header");
        }
        let (header, ciphertext) = data.split_at(HEADER_LEN);
        let privkey_hash: [u8; HASH_LEN] = copy_array(header, 0);
        let nonce: [u8; NONCE_LEN] = copy_array(header, HASH_LEN);
        let plaintext_hash: [u8; HASH_LEN] = copy_array(header, HASH_LEN + NONCE_LEN);
        let out = ZkvmOutput { privkey_hash, nonce, plaintext_hash, ciphertext };
        assert(out.bytes() =~= data@);
        Ok(out)
    }
}

/// The id of a zkVM program: the SHA-256 digest of its ELF binary.
pub fn get_program_id(program_elf: &[u8]) -> (id: SuccNetProgramId)
    ensures
        id@ == sha256_of(program_elf@),
{
    sha256(program_elf)
}

/// The public values the encryption program commits for `plaintext`: the
/// hash of the key, the nonce, the hash of the plaintext and the ciphertext.
pub open spec fn committed_output(key: Seq<u8>, nonce: Seq<u8>, plaintext: Seq<u8>) -> Seq<u8> {
    sha256_of(key) + nonce + sha256_of(plaintext) + chacha_spec(key, nonce, plaintext)
}

/// The inputs of the encryption program, in the order it reads them: the
/// key, the nonce, then the plaintext.
pub fn prover_input(key: &[u8; KEY_LEN], nonce: &[u8; NONCE_LEN], plaintext: &[u8]) -> (input: Vec<Vec<u8>>)
    ensures
        input@.len() == 3,
        input@[0]@ == key@,
        input@[1]@ == nonce@,
        input@[2]@ == plaintext@,
{
    let mut input: Vec<Vec<u8>> = Vec::new();
    input.push(slice_to_vec(key.as_slice()));
    input.push(slice_to_vec(nonce.as_slice()));
    input.push(slice_to_vec(plaintext));
    input
}

/// What the encryption program computes inside the zkVM: it commits to the
/// key by its hash (a fixed tag to find the data by later), to the nonce, to
/// the hash of the plaintext, and then to the plaintext encrypted in place.
pub fn encrypt_and_commit(key: &[u8; KEY_LEN], nonce: &[u8; NONCE_LEN], plaintext: Vec<u8>) -> (output: Vec<u8>)
    requires
        plaintext@.len() <= MAX_KEYSTREAM_LEN,
    ensures
        output@ == committed_output(key@, nonce@, plaintext@),
        sha256_of(key@).len() == HASH_LEN,
        sha256_of(plaintext@).len() == HASH_LEN,
        output@.len() == HEADER_LEN + plaintext@.len(),
        output@.subrange(0, HASH_LEN as int) == sha256_of(key@),
        output@.subrange(HASH_LEN as int, (HASH_LEN + NONCE_LEN) as int) == nonce@,
        output@.subrange((HASH_LEN + NONCE_LEN) as int, HEADER_LEN as int) == sha256_of(plaintext@),
        output@.subrange(HEADER_LEN as int, output@.len() as int) == chacha_spec(key@, nonce@, plaintext@),
        chacha_spec(
            key@,
            output@.subrange(HASH_LEN as int, (HASH_LEN + NONCE_LEN) as int),
            output@.subrange(HEADER_LEN as int, output@.len() as int),
        ) == plaintext@,
{
    let mut buffer = plaintext;
    let ghost original = buffer@;
    let mut output: Vec<u8> = Vec::new();
    let key_hash = sha256(key.as_slice());
    output.extend_from_slice(key_hash.as_slice());
    output.extend_from_slice(nonce.as_slice());
    let plaintext_hash = sha256(buffer.as_slice());
    output.extend_from_slice(plaintext_hash.as_slice());
    chacha(key, nonce, buffer.as_mut_slice());
    output.extend_from_slice(buffer.as_slice());
    assert(output@ =~= committed_output(key@, nonce@, original));
    proof {
        lemma_committed_output_round_trip(key@, nonce@, original);
    }
    output
}

/// Reads the public values of a verified proof and decrypts its ciphertext
/// with `key`, using the nonce the program committed to.
pub fn decrypt_public_values(key: &[u8; KEY_LEN], public_values: &[u8]) -> (res: Result<Vec<u8>, &'static str>)
    requires
        public_values@.len() <= HEADER_LEN + MAX_KEYSTREAM_LEN,
    ensures
        res is Err <==> public_values@.len() < HEADER_LEN,
        res matches Err(e) ==> e@ == "Input too short for header"@,
        res matches Ok(plaintext) ==> plaintext@ == chacha_spec(
            key@,
            public_values@.subrange(HASH_LEN as int, (HASH_LEN + NONCE_LEN) as int),
            public_values@.subrange(HEADER_LEN as int, public_values@.len() as int),
        ),
{
    let output = ZkvmOutput::from_bytes(public_values)?;
    Ok(crate::cipher::chacha_copy(key, &output.nonce, output.ciphertext))
}

/// Verifiable encryption round trip: the public values committed for a
/// plaintext parse into the key hash, the nonce, the plaintext hash and the
/// ciphertext, and decrypting them with the same key gives the plaintext back.
pub proof fn lemma_committed_output_round_trip(key: Seq<u8>, nonce: Seq<u8>, plaintext: Seq<u8>)
    requires
        key.len() == KEY_LEN,
        nonce.len() == NONCE_LEN,
        plaintext.len() <= MAX_KEYSTREAM_LEN,
        sha256_of(key).len() == HASH_LEN,
        sha256_of(plaintext).len() == HASH_LEN,
    ensures
        ({
            let out = committed_output(key, nonce, plaintext);
            &&& out.len() == HEADER_LEN + plaintext.len()
            &&& out.subrange(0, HASH_LEN as int) == sha256_of(key)
            &&& out.subrange(HASH_LEN as int, (HASH_LEN + NONCE_LEN) as int) == nonce
            &&& out.subrange((HASH_LEN + NONCE_LEN) as int, HEADER_LEN as int) == sha256_of(plaintext)
            &&& out.subrange(HEADER_LEN as int, out.len() as int) == chacha_spec(key, nonce, plaintext)
            &&& chacha_spec(
                key,
                out.subrange(HASH_LEN as int, (HASH_LEN + NONCE_LEN) as int),
                out.subrange(HEADER_LEN as int, out.len() as int),
            ) == plaintext
        }),
{
    let out = committed_output(key, nonce, plaintext);
    lemma_chacha_involutive(key, nonce, plaintext);
    assert(out.subrange(0, HASH_LEN as int) =~= sha256_of(key));
    assert(out.subrange(HASH_LEN as int, (HASH_LEN + NONCE_LEN) as int) =~= nonce);
    assert(out.subrange((HASH_LEN + NONCE_LEN) as int, HEADER_LEN as int) =~= sha256_of(plaintext));
    assert(out.subrange(HEADER_LEN as int, out.len() as int) =~= chacha_spec(key, nonce, plaintext));
}

} // verus!
