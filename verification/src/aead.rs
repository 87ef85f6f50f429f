use vstd::prelude::*;
use chacha20poly1305::aead::{Aead, KeyInit, Payload};

verus! {

/// Name for the ChaCha20-Poly1305 ciphertext (tag appended) of a plaintext
/// under a 32-byte key, a 12-byte nonce and associated data. The ciphertext is
/// a function of `(key, nonce, aad, plaintext)` alone.
pub uninterp spec fn aead_cipher_of(
    key: Seq<u8>,
    nonce: Seq<u8>,
    aad: Seq<u8>,
    plaintext: Seq<u8>,
) -> Seq<u8>;

/// ChaCha20-Poly1305 encryption.
///
/// Relies on chacha20poly1305::ChaCha20Poly1305::encrypt: the ciphertext is
/// the encrypted plaintext with the 16-byte tag appended, deterministic in
/// `(key, nonce, aad, plaintext)`; encryption fails only when the plaintext
/// reaches 2^32 - 1 cipher blocks of 64 bytes.
#[verifier::external_body]
pub(crate) fn aead_encrypt(
    key32: &[u8; 32],
    nonce12: &[u8; 12],
    aad: &[u8],
    plaintext: &[u8],
) -> (r: Option<Vec<u8>>)
    ensures
        r is Some ==> r->0@ == aead_cipher_of(key32@, nonce12@, aad@, plaintext@),
        r is Some ==> r->0@.len() == plaintext@.len() + 16,
        plaintext@.len() < 64 * 0xffff_ffff ==> r is Some,
{
    let aead = chacha20poly1305::ChaCha20Poly1305::new(chacha20poly1305::Key::from_slice(key32));
    let nonce = chacha20poly1305::Nonce::from_slice(nonce12);
    aead.encrypt(nonce, Payload { msg: plaintext, aad }).ok()
}

/// ChaCha20-Poly1305 decryption.
///
/// Relies on chacha20poly1305::ChaCha20Poly1305::decrypt: it is the
/// deterministic inverse of encrypt, so a ciphertext that encrypt produced
/// under the same key, nonce and associated data decrypts to the original
/// plaintext.
#[verifier::external_body]
pub(crate) fn aead_decrypt(
    key32: &[u8; 32],
    nonce12: &[u8; 12],
    aad: &[u8],
    ciphertext: &[u8],
) -> (r: Option<Vec<u8>>)
    ensures
        forall|p: Seq<u8>|
            ciphertext@ == aead_cipher_of(key32@, nonce12@, aad@, p) ==> r is Some && r->0@ == p,
{
    let aead = chacha20poly1305::ChaCha20Poly1305::new(chacha20poly1305::Key::from_slice(key32));
    let nonce = chacha20poly1305::Nonce::from_slice(nonce12);
    aead.decrypt(nonce, Payload { msg: ciphertext, aad }).ok()
}

} // verus!
