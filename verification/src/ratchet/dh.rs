use vstd::prelude::*;
use rand_core::OsRng;
use x25519_dalek::{EphemeralSecret, PublicKey};

verus! {

#[verifier::external_type_specification]
#[verifier::external_body]
pub struct ExEphemeralSecret(EphemeralSecret);

#[verifier::external_type_specification]
#[verifier::external_body]
pub struct ExPublicKey(PublicKey);

/// Relies on x25519_dalek::EphemeralSecret::random_from_rng with the
/// operating-system RNG: a fresh random secret. Nothing is assumed of its
/// value.
#[verifier::external_body]
fn x25519_new_secret() -> EphemeralSecret {
    EphemeralSecret::random_from_rng(OsRng)
}

/// Relies on x25519_dalek's `From<&EphemeralSecret> for PublicKey`: the
/// public half of the secret. Its value is opaque here.
#[verifier::external_body]
fn x25519_public_of(secret: &EphemeralSecret) -> PublicKey {
    PublicKey::from(secret)
}

/// Relies on x25519_dalek::EphemeralSecret::diffie_hellman and
/// SharedSecret::to_bytes: the 32-byte shared secret of the consumed local
/// secret and the peer's public key. Its value is opaque here.
#[verifier::external_body]
fn x25519_shared(secret: EphemeralSecret, peer: &PublicKey) -> [u8; 32] {
    secret.diffie_hellman(peer).to_bytes()
}

/// Ephemeral X25519 keypair, reserved for a future Diffie-Hellman ratchet
/// extension. The secret half is consumed by a single DH computation.
pub struct DhKeyPair {
    secret: Option<EphemeralSecret>,
    pub public: PublicKey,
}

impl DhKeyPair {
    /// True while the keypair still holds its secret half.
    pub closed spec fn has_secret(&self) -> bool {
        self.secret is Some
    }

    /// The public half of the keypair, as contracts see it.
    pub closed spec fn spec_public(&self) -> PublicKey {
        self.public
    }

    pub fn generate() -> (r: Self)
        ensures
            r.has_secret(),
    {
        let secret = x25519_new_secret();
        let public = x25519_public_of(&secret);
        DhKeyPair { secret: Some(secret), public }
    }

    /// Computes DH once, consuming the internal secret (ephemeral by design).
    /// The secret must still be present; regenerate between computations.
    pub fn dh_once(&mut self, peer_pub: &PublicKey) -> (r: [u8; 32])
        requires
            old(self).has_secret(),
        ensures
            !final(self).has_secret(),
            final(self).spec_public() == old(self).spec_public(),
    {
        let secret = self.secret.take().unwrap();
        x25519_shared(secret, peer_pub)
    }

    /// Regenerates the local ephemeral keypair after a DH step.
    pub fn regenerate(&mut self)
        ensures
            final(self).has_secret(),
    {
        *self = DhKeyPair::generate();
    }
}

} // verus!
