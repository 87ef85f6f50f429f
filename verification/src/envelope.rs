use vstd::prelude::*;
use crate::aead::{aead_cipher_of, aead_decrypt, aead_encrypt};
use crate::codec::{append_bytes, copy_12};
use crate::error::CoreError;
use crate::hash::{sha256, sha256_of};
use crate::labels::{nonce_domain, nonce_domain_bytes};
use crate::types::MsgType;

verus! {

/// Preimage of the deterministic envelope nonce: domain separator, then the
/// canonical header bytes, then the associated data.
pub open spec fn nonce_preimage(header: Seq<u8>, aad: Seq<u8>) -> Seq<u8> {
    nonce_domain() + header + aad
}

/// The deterministic 12-byte nonce bound to `(header, aad)`: the first 12
/// bytes of the domain-separated SHA-256 of the two. This is sound only
/// because the header embeds a monotone counter, which makes `(header, aad)`
/// unique per key.
pub open spec fn envelope_nonce(header: Seq<u8>, aad: Seq<u8>) -> Seq<u8> {
    sha256_of(nonce_preimage(header, aad)).subrange(0, 12)
}

/// Compact authenticated-encryption container. Header bytes and associated
/// data are explicit; no permanent identifiers appear anywhere in it.
#[derive(Clone, Debug)]
pub struct EnvelopeV2 {
    pub msg_type: MsgType,
    pub flags: u16,
    pub header: Vec<u8>,
    pub aad: Vec<u8>,
    pub nonce12: [u8; 12],
    pub ciphertext: Vec<u8>,
}

impl EnvelopeV2 {
    /// Seals `plaintext` under `key32`, binding the canonical header bytes
    /// and the associated data through the derived nonce and the AEAD.
    ///
    /// Fails with `InvalidEnvelope` when `aad` is empty or when the AEAD
    /// rejects the plaintext; any plaintext below the cipher's block-count
    /// limit is accepted.
    pub fn seal(
        msg_type: MsgType,
        flags: u16,
        header: Vec<u8>,
        aad: Vec<u8>,
        key32: &[u8; 32],
        plaintext: &[u8],
    ) -> (r: Result<Self, CoreError>)
        ensures
            aad@.len() == 0 ==> r == Err::<EnvelopeV2, CoreError>(CoreError::InvalidEnvelope),
            r is Err ==> r == Err::<EnvelopeV2, CoreError>(CoreError::InvalidEnvelope),
            aad@.len() > 0 && plaintext@.len() < 64 * 0xffff_ffff ==> r is Ok,
            r is Ok ==> {
                let env = r->Ok_0;
                &&& env.msg_type == msg_type
                &&& env.flags == flags
                &&& env.header@ == header@
                &&& env.aad@ == aad@
                &&& env.nonce12@ == envelope_nonce(header@, aad@)
                &&& env.ciphertext@ == aead_cipher_of(
                    key32@,
                    envelope_nonce(header@, aad@),
                    aad@,
                    plaintext@,
                )
                &&& env.ciphertext@.len() == plaintext@.len() + 16
            },
    {
        if aad.is_empty() {
            return Err(CoreError::InvalidEnvelope);
        }
        let mut buf: Vec<u8> = Vec::new();
        append_bytes(&mut buf, nonce_domain_bytes());
        append_bytes(&mut buf, header.as_slice());
        append_bytes(&mut buf, aad.as_slice());
        proof {
            assert(buf@ =~= nonce_preimage(header@, aad@));
        }
        let digest = sha256(buf.as_slice());
        let nonce12 = copy_12(digest.as_slice(), 0);
        match aead_encrypt(key32, &nonce12, aad.as_slice(), plaintext) {
            Some(ciphertext) => Ok(
                EnvelopeV2 { msg_type, flags, header, aad, nonce12, ciphertext },
            ),
            None => Err(CoreError::InvalidEnvelope),
        }
    }

    /// Opens the envelope under `key32`, authenticating the ciphertext
    /// against the stored nonce and associated data. A ciphertext that was
    /// sealed under the same key, nonce and associated data opens to exactly
    /// the plaintext that was sealed; a tampered one fails with
    /// `InvalidEnvelope`.
    pub fn open(&self, key32: &[u8; 32]) -> (r: Result<Vec<u8>, CoreError>)
        ensures
            r is Err ==> r == Err::<Vec<u8>, CoreError>(CoreError::InvalidEnvelope),
            forall|p: Seq<u8>|
                self.ciphertext@ == aead_cipher_of(key32@, self.nonce12@, self.aad@, p) ==> r is Ok
                    && r->Ok_0@ == p,
    {
        match aead_decrypt(key32, &self.nonce12, self.aad.as_slice(), self.ciphertext.as_slice()) {
            Some(plaintext) => Ok(plaintext),
            None => Err(CoreError::InvalidEnvelope),
        }
    }
}

/// Round-trip law of the envelope: whenever sealing `(header, aad, plaintext)`
/// under a key succeeds, opening the sealed envelope under the same key
/// succeeds and returns the plaintext exactly; and sealing is owed success for
/// every non-empty `aad` and every plaintext below the cipher's length limit.
pub fn seal_then_open(
    msg_type: MsgType,
    flags: u16,
    header: Vec<u8>,
    aad: Vec<u8>,
    key32: &[u8; 32],
    plaintext: &[u8],
) -> (r: Result<Vec<u8>, CoreError>)
    ensures
        aad@.len() > 0 && plaintext@.len() < 64 * 0xffff_ffff ==> r is Ok,
        r is Ok ==> r->Ok_0@ == plaintext@,
{
    let env = EnvelopeV2::seal(msg_type, flags, header, aad, key32, plaintext)?;
    env.open(key32)
}

} // verus!
