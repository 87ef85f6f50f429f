use carthedge_core::envelope::{seal_then_open, EnvelopeV2};
use carthedge_core::types::MsgType;
use chacha20poly1305::aead::{Aead, KeyInit, Payload};
use chacha20poly1305::{ChaCha20Poly1305, Key, Nonce};
use sha2::{Digest, Sha256};

#[test]
fn seal_with_empty_aad_fails() {
    let key = [1u8; 32];
    let err = EnvelopeV2::seal(MsgType::ChannelMsg, 0, vec![1, 2, 3], vec![], &key, b"pt")
        .unwrap_err();
    let s = format!("{:?}", err);
    assert!(s.contains("InvalidEnvelope"));
}

#[test]
fn seal_open_round_trip_exact() {
    let key = [5u8; 32];
    let env = EnvelopeV2::seal(
        MsgType::RatchetMsg,
        7,
        vec![1, 2, 3, 4],
        vec![9, 9],
        &key,
        b"the plaintext",
    )
    .unwrap();
    assert_eq!(env.flags, 7);
    assert_eq!(env.header, vec![1, 2, 3, 4]);
    assert_eq!(env.aad, vec![9, 9]);
    let out = env.open(&key).unwrap();
    assert_eq!(out, b"the plaintext".to_vec());

    // and through the round-trip law entry point
    let out2 = seal_then_open(
        MsgType::RatchetMsg,
        7,
        vec![1, 2, 3, 4],
        vec![9, 9],
        &key,
        b"the plaintext",
    )
    .unwrap();
    assert_eq!(out2, b"the plaintext".to_vec());
}

#[test]
fn nonce_is_first_12_bytes_of_domain_separated_hash() {
    let key = [2u8; 32];
    let header = vec![8u8, 7, 6];
    let aad = vec![4u8, 4];
    let env = EnvelopeV2::seal(MsgType::ChannelMsg, 0, header.clone(), aad.clone(), &key, b"x")
        .unwrap();
    let mut d = Sha256::new();
    d.update(b"carthedge/v0.3/envelope_v2/nonce");
    d.update(&header);
    d.update(&aad);
    let digest = d.finalize();
    assert_eq!(&env.nonce12[..], &digest[0..12]);
}

#[test]
fn ciphertext_matches_direct_chacha20poly1305() {
    let key = [3u8; 32];
    let header = vec![1u8];
    let aad = vec![2u8, 2];
    let pt = b"attack at dawn";
    let env = EnvelopeV2::seal(MsgType::ChannelMsg, 0, header, aad.clone(), &key, pt).unwrap();

    let aead = ChaCha20Poly1305::new(Key::from_slice(&key));
    let nonce = Nonce::from_slice(&env.nonce12);
    let expected = aead.encrypt(nonce, Payload { msg: pt, aad: &aad }).unwrap();
    assert_eq!(env.ciphertext, expected);
    assert_eq!(env.ciphertext.len(), pt.len() + 16);
}

#[test]
fn open_with_wrong_key_fails() {
    let key = [5u8; 32];
    let other = [6u8; 32];
    let env = EnvelopeV2::seal(MsgType::ChannelMsg, 0, vec![1], vec![2], &key, b"pt").unwrap();
    let err = env.open(&other).unwrap_err();
    assert!(format!("{:?}", err).contains("InvalidEnvelope"));
}

#[test]
fn open_tampered_ciphertext_fails() {
    let key = [5u8; 32];
    let mut env = EnvelopeV2::seal(MsgType::ChannelMsg, 0, vec![1], vec![2], &key, b"pt").unwrap();
    env.ciphertext[0] ^= 0xff;
    let err = env.open(&key).unwrap_err();
    assert!(format!("{:?}", err).contains("InvalidEnvelope"));
}
