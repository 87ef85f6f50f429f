use carthedge_core::qkr_gate::AllowAllGate;
use carthedge_core::ratchet::{
    derive_session_keys, hkdf_expand_32, hkdf_extract_and_expand_96, ratchet_step,
    transcript_hash, RatchetState,
};
use hkdf::Hkdf;
use sha2::{Digest, Sha256};

#[test]
fn hkdf_expand_32_matches_direct_hkdf() {
    let prk = [7u8; 32];
    let info = b"some info";
    let got = hkdf_expand_32(&prk, info);
    let hk = Hkdf::<Sha256>::new(None, &prk);
    let mut expected = [0u8; 32];
    hk.expand(info, &mut expected).unwrap();
    assert_eq!(got, expected);
}

#[test]
fn hkdf_extract_and_expand_96_matches_direct_hkdf() {
    let salt = [1u8; 32];
    let ikm = [2u8; 32];
    let info = b"session info";
    let got = hkdf_extract_and_expand_96(&salt, &ikm, info);
    let hk = Hkdf::<Sha256>::new(Some(&salt), &ikm);
    let mut expected = [0u8; 96];
    hk.expand(info, &mut expected).unwrap();
    assert_eq!(got[..], expected[..]);
}

#[test]
fn transcript_hash_matches_direct_sha256() {
    let e_i = [0xaau8; 32];
    let e_r = [0xbbu8; 32];
    let got = transcript_hash(&e_i, &e_r);
    let mut d = Sha256::new();
    d.update(b"carthedge/v0.2.2/transcript");
    d.update(e_i);
    d.update(e_r);
    let expected: [u8; 32] = d.finalize().into();
    assert_eq!(got, expected);
}

#[test]
fn derive_session_keys_splits_the_96_byte_output() {
    let gate = AllowAllGate;
    let shared = [3u8; 32];
    let th = [4u8; 32];
    let sk = derive_session_keys(&gate, &shared, &th).unwrap();
    let okm = hkdf_extract_and_expand_96(&th, &shared, b"carthedge/v0.2.2/session_keys");
    assert_eq!(sk.root_key[..], okm[0..32]);
    assert_eq!(sk.chain_key_send[..], okm[32..64]);
    assert_eq!(sk.chain_key_recv[..], okm[64..96]);
}

#[test]
fn ratchet_step_derives_both_keys_under_their_labels() {
    let gate = AllowAllGate;
    let ck = [8u8; 32];
    let keys = ratchet_step(&gate, &ck).unwrap();
    assert_eq!(keys.msg_key, hkdf_expand_32(&ck, b"carthedge/v0.2.2/msg_key"));
    assert_eq!(keys.next_chain_key, hkdf_expand_32(&ck, b"carthedge/v0.2.2/chain_key"));
    assert_ne!(keys.msg_key, keys.next_chain_key);
}

#[test]
fn two_ratchets_from_the_same_state_stay_identical() {
    let gate = AllowAllGate;
    let mut a = RatchetState::new([0u8; 32], [1u8; 32], [2u8; 32]);
    let mut b = RatchetState::new([0u8; 32], [1u8; 32], [2u8; 32]);
    for _ in 0..5 {
        a.step_send(&gate).unwrap();
        b.step_send(&gate).unwrap();
        assert_eq!(a.chain_key_send, b.chain_key_send);
        let mk_a = hkdf_expand_32(&a.chain_key_send, b"carthedge/ratchet/mk");
        let mk_b = hkdf_expand_32(&b.chain_key_send, b"carthedge/ratchet/mk");
        assert_eq!(mk_a, mk_b);
        a.ratchet_step_recv(&gate).unwrap();
        b.ratchet_step_recv(&gate).unwrap();
        assert_eq!(a.chain_key_recv, b.chain_key_recv);
    }
    assert_eq!(a.send_counter, b.send_counter);
    assert_eq!(a.recv_counter, b.recv_counter);
}

#[test]
fn next_message_key_consumes_the_chain() {
    let gate = AllowAllGate;
    let mut state = RatchetState::new([0u8; 32], [1u8; 32], [2u8; 32]);
    let before = state.chain_key_send;
    let mk = state.ratchet_next_message_key(&gate).unwrap();
    assert_eq!(mk, hkdf_expand_32(&before, b"carthedge/ratchet/mk"));
    assert_eq!(state.chain_key_send, hkdf_expand_32(&before, b"carthedge/ratchet/ck"));
    assert_eq!(state.send_counter, 1);
    assert_ne!(state.chain_key_send, before);
}
