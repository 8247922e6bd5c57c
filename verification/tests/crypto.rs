use pda_proxy::cipher::{chacha, chacha_copy, random_nonce, HASH_LEN, HEADER_LEN, KEY_LEN, NONCE_LEN};
use pda_proxy::hex_text::{bytes_to_hex, parse_encryption_key};
use pda_proxy::zkvm::{decrypt_public_values, encrypt_and_commit, get_program_id, ZkvmOutput};

fn unhex(s: &str) -> Vec<u8> {
    (0..s.len())
        .step_by(2)
        .map(|i| u8::from_str_radix(&s[i..i + 2], 16).unwrap())
        .collect()
}

fn counting_key() -> [u8; KEY_LEN] {
    let mut key = [0u8; KEY_LEN];
    for (i, b) in key.iter_mut().enumerate() {
        *b = i as u8;
    }
    key
}

fn counting_nonce() -> [u8; NONCE_LEN] {
    let mut nonce = [0u8; NONCE_LEN];
    for (i, b) in nonce.iter_mut().enumerate() {
        *b = i as u8;
    }
    nonce
}

#[test]
fn header_constants_add_up() {
    assert_eq!(HEADER_LEN, HASH_LEN + NONCE_LEN + HASH_LEN);
    assert_eq!(KEY_LEN, 32);
    assert_eq!(NONCE_LEN, 12);
}

#[test]
fn program_id_is_sha256_of_elf() {
    assert_eq!(
        bytes_to_hex(&get_program_id(b"abc")),
        "ba7816bf8f01cfea414140de5dae2223b00361a396177a9cb410ff61f20015ad"
    );
    assert_eq!(
        bytes_to_hex(&get_program_id(b"")),
        "e3b0c44298fc1c149afbf4c8996fb92427ae41e4649b934ca495991b7852b855"
    );
}

#[test]
fn chacha_zero_key_gives_rfc8439_keystream() {
    let mut buffer = [0u8; 64];
    chacha(&[0u8; KEY_LEN], &[0u8; NONCE_LEN], &mut buffer);
    assert_eq!(
        bytes_to_hex(&buffer),
        "76b8e0ada0f13d90405d6ae55386bd28bdd219b8a08ded1aa836efcc8b770dc7\
         da41597c5157488d7724e03fb8d84a376a43b8f41518a11cc387b669b2ee6586"
    );
}

#[test]
fn chacha_encrypts_and_decrypts() {
    let key = counting_key();
    let nonce = counting_nonce();
    let plaintext = b"hello verifiable encryption".to_vec();
    let mut buffer = plaintext.clone();
    chacha(&key, &nonce, &mut buffer);
    assert_eq!(buffer, unhex("785f9d7daeab22f84b4de9d91c02aeffb5b4b5ebaaeb87c0c61ff4"));
    chacha(&key, &nonce, &mut buffer);
    assert_eq!(buffer, plaintext);
    assert_eq!(chacha_copy(&key, &nonce, &plaintext), unhex("785f9d7daeab22f84b4de9d91c02aeffb5b4b5ebaaeb87c0c61ff4"));
}

#[test]
fn chacha_on_empty_buffer_is_empty() {
    let mut buffer: [u8; 0] = [];
    chacha(&counting_key(), &counting_nonce(), &mut buffer);
    assert!(chacha_copy(&counting_key(), &counting_nonce(), &[]).is_empty());
}

#[test]
fn random_nonces_are_fresh() {
    let a = random_nonce().expect("OS random number generator");
    let b = random_nonce().expect("OS random number generator");
    assert_ne!(a, b);
    assert_ne!(a, [0u8; NONCE_LEN]);
}

#[test]
fn from_bytes_rejects_short_input() {
    assert_eq!(ZkvmOutput::from_bytes(&[]).err(), Some("Input too short for header"));
    assert_eq!(ZkvmOutput::from_bytes(&[7u8; HEADER_LEN - 1]).err(), Some("Input too short for header"));
}

#[test]
fn from_bytes_splits_header_and_ciphertext() {
    let data: Vec<u8> = (0..80u8).collect();
    let out = ZkvmOutput::from_bytes(&data).unwrap();
    assert_eq!(out.privkey_hash.to_vec(), (0..32u8).collect::<Vec<_>>());
    assert_eq!(out.nonce.to_vec(), (32..44u8).collect::<Vec<_>>());
    assert_eq!(out.plaintext_hash.to_vec(), (44..76u8).collect::<Vec<_>>());
    assert_eq!(out.ciphertext, &[76u8, 77, 78, 79]);

    let exact = [1u8; HEADER_LEN];
    let out = ZkvmOutput::from_bytes(&exact).unwrap();
    assert!(out.ciphertext.is_empty());
}

#[test]
fn committed_output_round_trip() {
    let key = counting_key();
    let nonce = counting_nonce();
    let plaintext = b"hello verifiable encryption".to_vec();
    let output = encrypt_and_commit(&key, &nonce, plaintext.clone());
    assert_eq!(output.len(), HEADER_LEN + plaintext.len());
    let out = ZkvmOutput::from_bytes(&output).unwrap();
    assert_eq!(
        bytes_to_hex(&out.privkey_hash),
        "630dcd2966c4336691125448bbb25b4ff412a49c732db2c8abc1b8581bd710dd"
    );
    assert_eq!(out.nonce, nonce);
    assert_eq!(
        bytes_to_hex(&out.plaintext_hash),
        "5ef94103432f73f4acdc888edf6992b2bac9084c8b599d80f70000afbc7ebfc3"
    );
    assert_eq!(out.ciphertext, unhex("785f9d7daeab22f84b4de9d91c02aeffb5b4b5ebaaeb87c0c61ff4").as_slice());
    assert_eq!(decrypt_public_values(&key, &output), Ok(plaintext));
}

#[test]
fn decrypt_rejects_short_public_values() {
    assert_eq!(decrypt_public_values(&counting_key(), &[0u8; 10]), Err("Input too short for header"));
}

#[test]
fn decrypt_with_wrong_key_does_not_give_plaintext() {
    let nonce = counting_nonce();
    let plaintext = b"secret".to_vec();
    let output = encrypt_and_commit(&counting_key(), &nonce, plaintext.clone());
    let wrong = decrypt_public_values(&[9u8; KEY_LEN], &output).unwrap();
    assert_ne!(wrong, plaintext);
    assert_eq!(wrong.len(), plaintext.len());
}

#[test]
fn zkvm_output_debug_text() {
    let data: Vec<u8> = vec![0u8; HEADER_LEN];
    let out = ZkvmOutput::from_bytes(&data).unwrap();
    let zeros32 = "00".repeat(32);
    let zeros12 = "00".repeat(12);
    assert_eq!(
        out.debug_string(),
        format!(
            "ZkvmOutput {{ privkey_hash: \"{zeros32}\", nonce: \"{zeros12}\", plaintext_hash: \"{zeros32}\", ciphertext_sha256: \"e3b0c44298fc1c149afbf4c8996fb92427ae41e4649b934ca495991b7852b855\" }}"
        )
    );
}

#[test]
fn bytes_to_hex_is_lowercase_two_digits_per_byte() {
    assert_eq!(bytes_to_hex(&[]), "");
    assert_eq!(bytes_to_hex(&[0x00, 0x0f, 0xa0, 0xff, 0x12]), "000fa0ff12");
}

#[test]
fn encryption_key_parses_from_hex() {
    let text = "000102030405060708090a0b0c0d0e0f101112131415161718191A1B1C1D1E1F";
    assert_eq!(parse_encryption_key(text), Some(counting_key()));
    assert_eq!(parse_encryption_key(&bytes_to_hex(&counting_key())), Some(counting_key()));
}

#[test]
fn encryption_key_rejects_bad_text() {
    assert_eq!(parse_encryption_key(""), None);
    assert_eq!(parse_encryption_key("abc"), None);
    assert_eq!(parse_encryption_key(&"00".repeat(31)), None);
    assert_eq!(parse_encryption_key(&"00".repeat(33)), None);
    assert_eq!(parse_encryption_key(&format!("{}zz", "00".repeat(31))), None);
    assert_eq!(parse_encryption_key(&format!("0{}", "00".repeat(32))), None);
}

#[test]
fn prover_input_order() {
    let input = pda_proxy::zkvm::prover_input(&counting_key(), &counting_nonce(), b"data");
    assert_eq!(input, vec![counting_key().to_vec(), counting_nonce().to_vec(), b"data".to_vec()]);
}
