use vstd::prelude::*;
use sha2::Digest;

verus! {

/// Name for the 32-byte SHA-256 digest of a byte sequence. The digest is a
/// function of the input bytes alone; nothing more is assumed of it.
pub uninterp spec fn sha256_of(data: Seq<u8>) -> Seq<u8>;

/// Relies on sha2::Sha256 (through the Digest trait): the digest is 32 bytes
/// and is determined by the input bytes alone.
#[verifier::external_body]
pub(crate) fn sha256(data: &[u8]) -> (r: [u8; 32])
    ensures
        r@ == sha256_of(data@),
{
    let d = sha2::Sha256::digest(data);
    let mut out = [0u8; 32];
    out.copy_from_slice(&d);
    out
}

} // verus!
