//! The symmetric key ratchet: KDF primitives, headers, the skipped-key store,
//! the gated ratchet state machine, and the pairwise seal/open path.

pub mod dh;
pub mod header;
pub mod kdf;
pub mod skipped;
pub mod state;

pub use dh::DhKeyPair;
pub use header::ratchet_header_encoding;
pub use header::ratchet_header_hash;
pub use header::RatchetHeader;
pub use kdf::hkdf_expand32_of;
pub use kdf::hkdf_expand_32;
pub use kdf::hkdf_extract_and_expand_96;
pub use kdf::hkdf_okm96_of;
pub use skipped::SkippedKeyStore;
pub use state::chain_after;
pub use state::chain_msg_key;
pub use state::next_chain_key;
pub use state::wrap_inc;
pub use state::RatchetState;
pub use state::RatchetStatus;

use vstd::prelude::*;
use crate::aead::aead_cipher_of;
use crate::codec::{append_bytes, bytes_eq, copy_32};
use crate::envelope::{envelope_nonce, EnvelopeV2};
use crate::error::CoreError;
use crate::hash::{sha256, sha256_of};
use crate::labels::{
    ratchet_step_domain, ratchet_step_domain_bytes, session_keys_label, session_keys_label_bytes,
    step_chain_key_label, step_chain_key_label_bytes, step_msg_key_label, step_msg_key_label_bytes,
    transcript_domain, transcript_domain_bytes,
};
use crate::qkr_gate::QkrGate;
use crate::types::MsgType;

verus! {

/// Root key and the two chain keys derived from a handshake.
#[derive(Clone, Debug)]
pub struct SessionKeys {
    pub root_key: [u8; 32],
    pub chain_key_send: [u8; 32],
    pub chain_key_recv: [u8; 32],
}

/// Message key and successor chain key of one symmetric chain step.
#[derive(Clone, Debug)]
pub struct MessageKeys {
    pub msg_key: [u8; 32],
    pub next_chain_key: [u8; 32],
}

/// Transcript hash binding the session keys to the handshake artifacts: the
/// domain-separated SHA-256 of the two ephemeral public keys. No permanent
/// identifiers enter it.
pub fn transcript_hash(e_i: &[u8; 32], e_r: &[u8; 32]) -> (r: [u8; 32])
    ensures
        r@ == sha256_of(transcript_domain() + e_i@ + e_r@),
{
    let mut buf: Vec<u8> = Vec::new();
    append_bytes(&mut buf, transcript_domain_bytes());
    append_bytes(&mut buf, e_i.as_slice());
    append_bytes(&mut buf, e_r.as_slice());
    proof {
        assert(buf@ =~= transcript_domain() + e_i@ + e_r@);
    }
    sha256(buf.as_slice())
}

/// Derives the root key and the send/receive chain keys from the handshake
/// shared secret and the transcript hash. Gated as
/// `ratchet_derive_session_keys` over the transcript hash.
///
/// On success the 96-byte HKDF output splits into
/// `root_key || chain_key_send || chain_key_recv`.
pub fn derive_session_keys<G: QkrGate>(
    gate: &G,
    handshake_shared_secret: &[u8; 32],
    transcript_hash: &[u8; 32],
) -> (r: Result<SessionKeys, CoreError>)
    ensures
        r is Ok ==> {
            let okm = hkdf_okm96_of(
                transcript_hash@,
                handshake_shared_secret@,
                session_keys_label(),
            );
            &&& r->Ok_0.root_key@ == okm.subrange(0, 32)
            &&& r->Ok_0.chain_key_send@ == okm.subrange(32, 64)
            &&& r->Ok_0.chain_key_recv@ == okm.subrange(64, 96)
        },
{
    let dec = gate.gate("ratchet_derive_session_keys", transcript_hash.as_slice())?;
    if !dec.allowed {
        return Err(CoreError::GateBlocked(dec.human));
    }
    let okm = hkdf_extract_and_expand_96(
        transcript_hash.as_slice(),
        handshake_shared_secret.as_slice(),
        session_keys_label_bytes(),
    );
    let root_key = copy_32(okm.as_slice(), 0);
    let chain_key_send = copy_32(okm.as_slice(), 32);
    let chain_key_recv = copy_32(okm.as_slice(), 64);
    Ok(SessionKeys { root_key, chain_key_send, chain_key_recv })
}

/// Advances one symmetric chain step from an explicit chain key (no
/// DH-ratchet). Gated as `ratchet_step` over the domain-separated digest of
/// the chain key.
///
/// On success the message key and the successor chain key are each derived
/// from the given chain key under their stable labels.
pub fn ratchet_step<G: QkrGate>(gate: &G, chain_key: &[u8; 32]) -> (r: Result<
    MessageKeys,
    CoreError,
>)
    ensures
        r is Ok ==> r->Ok_0.msg_key@ == crate::ratchet::kdf::hkdf_expand32_of(
            chain_key@,
            step_msg_key_label(),
        ),
        r is Ok ==> r->Ok_0.next_chain_key@ == crate::ratchet::kdf::hkdf_expand32_of(
            chain_key@,
            step_chain_key_label(),
        ),
{
    let mut buf: Vec<u8> = Vec::new();
    append_bytes(&mut buf, ratchet_step_domain_bytes());
    append_bytes(&mut buf, chain_key.as_slice());
    let digest = sha256(buf.as_slice());
    let dec = gate.gate("ratchet_step", digest.as_slice())?;
    if !dec.allowed {
        return Err(CoreError::GateBlocked(dec.human));
    }
    let msg_key = hkdf_expand_32(chain_key.as_slice(), step_msg_key_label_bytes());
    let next_chain_key = hkdf_expand_32(chain_key.as_slice(), step_chain_key_label_bytes());
    Ok(MessageKeys { msg_key, next_chain_key })
}

/// Seals a pairwise ratchet message: AAD is the header hash and the envelope
/// header is the canonical header encoding. Gated as `send_msg` over the
/// header hash.
pub fn seal_ratchet_msg<G: QkrGate>(
    gate: &G,
    header: &RatchetHeader,
    msg_key: &[u8; 32],
    plaintext: &[u8],
) -> (r: Result<EnvelopeV2, CoreError>)
    ensures
        r is Ok ==> {
            let env = r->Ok_0;
            &&& env.msg_type == MsgType::RatchetMsg
            &&& env.flags == 0
            &&& env.header@ == ratchet_header_encoding(*header)
            &&& env.aad@ == ratchet_header_hash(*header)
            &&& env.nonce12@ == envelope_nonce(
                ratchet_header_encoding(*header),
                ratchet_header_hash(*header),
            )
            &&& env.ciphertext@ == aead_cipher_of(
                msg_key@,
                envelope_nonce(ratchet_header_encoding(*header), ratchet_header_hash(*header)),
                ratchet_header_hash(*header),
                plaintext@,
            )
        },
{
    let hh = header.hash();
    let dec = gate.gate("send_msg", hh.as_slice())?;
    if !dec.allowed {
        return Err(CoreError::GateBlocked(dec.human));
    }
    let mut aad: Vec<u8> = Vec::new();
    append_bytes(&mut aad, hh.as_slice());
    proof {
        assert(aad@ =~= ratchet_header_hash(*header));
    }
    EnvelopeV2::seal(MsgType::RatchetMsg, 0u16, header.to_bytes(), aad, msg_key, plaintext)
}

/// Opens a pairwise ratchet message. Gated as `decrypt_msg` over the header
/// hash; the envelope must carry exactly
/// the canonical header bytes and the header hash as AAD, and the AEAD must
/// authenticate. An envelope that `seal_ratchet_msg` produced for this header
/// opens to exactly the plaintext that was sealed.
pub fn open_ratchet_msg<G: QkrGate>(
    gate: &G,
    header: &RatchetHeader,
    msg_key: &[u8; 32],
    env: &EnvelopeV2,
) -> (r: Result<Vec<u8>, CoreError>)
    ensures
        env.aad@ != ratchet_header_hash(*header) || env.header@ != ratchet_header_encoding(*header)
            ==> r is Err,
        r is Ok ==> env.aad@ == ratchet_header_hash(*header) && env.header@
            == ratchet_header_encoding(*header),
        r is Ok ==> forall|p: Seq<u8>|
            env.ciphertext@ == aead_cipher_of(msg_key@, env.nonce12@, env.aad@, p) ==> r->Ok_0@
                == p,
{
    let hh = header.hash();
    let dec = gate.gate("decrypt_msg", hh.as_slice())?;
    if !dec.allowed {
        return Err(CoreError::GateBlocked(dec.human));
    }
    if !bytes_eq(env.aad.as_slice(), hh.as_slice()) {
        return Err(CoreError::InvalidEnvelope);
    }
    let hb = header.to_bytes();
    if !bytes_eq(env.header.as_slice(), hb.as_slice()) {
        return Err(CoreError::InvalidEnvelope);
    }
    env.open(msg_key)
}

} // verus!
