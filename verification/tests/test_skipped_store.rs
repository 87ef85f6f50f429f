use carthedge_core::channel::{ChannelHeader, ChannelMember, ChannelState};
use carthedge_core::envelope::EnvelopeV2;
use carthedge_core::error::CoreError;
use carthedge_core::qkr_gate::AllowAllGate;
use carthedge_core::ratchet::{SkippedKeyStore, RatchetState};
use carthedge_core::types::MsgType;

#[test]
fn put_take_len_basics() {
    let mut store = SkippedKeyStore::new(4);
    assert_eq!(store.len(), 0);
    store.put(10, [1u8; 32]).unwrap();
    store.put(11, [2u8; 32]).unwrap();
    assert_eq!(store.len(), 2);
    assert_eq!(store.take(10), Some([1u8; 32]));
    assert_eq!(store.len(), 1);
    // a taken key is consumed: the second take finds nothing
    assert_eq!(store.take(10), None);
    assert_eq!(store.take(11), Some([2u8; 32]));
    assert_eq!(store.len(), 0);
}

#[test]
fn put_rejects_overflow_and_keeps_the_store() {
    let mut store = SkippedKeyStore::new(2);
    store.put(0, [0u8; 32]).unwrap();
    store.put(1, [1u8; 32]).unwrap();
    let err = store.put(2, [2u8; 32]).unwrap_err();
    assert!(matches!(err, CoreError::SkippedStoreError));
    assert_eq!(store.len(), 2);
    // replacing a held counter still succeeds at capacity
    store.put(1, [9u8; 32]).unwrap();
    assert_eq!(store.take(1), Some([9u8; 32]));
}

#[test]
fn fast_forward_fills_the_store_and_overflow_surfaces() {
    let gate = AllowAllGate;
    let mk = [0u8; 32];

    // A gap of 64 keys fits the default capacity exactly.
    let mut st =
        ChannelState::new_for_tests(vec![ChannelMember::new_for_tests(RatchetState::dummy())]);
    let h = ChannelHeader { msg_type: MsgType::ChannelMsg, epoch: 0, counter: 64, member_ix: 0 };
    let env = EnvelopeV2::seal(
        MsgType::ChannelMsg,
        0,
        h.to_bytes(),
        h.hash().to_vec(),
        &mk,
        b"x",
    )
    .unwrap();
    // The envelope was sealed under a key that is not the receiver's derived
    // message key, so the receive fails only at the final AEAD opening; the
    // store has been filled for the whole stepped-over gap by then.
    let err = st.recv_for_member(&gate, 0, &h, &env).unwrap_err();
    assert!(matches!(err, CoreError::InvalidEnvelope));
    assert_eq!(st.members[0].ratchet.skipped.len(), 64);
    assert_eq!(st.members[0].ratchet.recv_counter, 65);

    // A gap of 65 keys overflows the bounded store.
    let mut st2 =
        ChannelState::new_for_tests(vec![ChannelMember::new_for_tests(RatchetState::dummy())]);
    let h2 = ChannelHeader { msg_type: MsgType::ChannelMsg, epoch: 0, counter: 65, member_ix: 0 };
    let env2 = EnvelopeV2::seal(
        MsgType::ChannelMsg,
        0,
        h2.to_bytes(),
        h2.hash().to_vec(),
        &mk,
        b"x",
    )
    .unwrap();
    let err2 = st2.recv_for_member(&gate, 0, &h2, &env2).unwrap_err();
    assert!(matches!(err2, CoreError::SkippedStoreError));
    assert_eq!(st2.members[0].ratchet.skipped.len(), 64);
}
