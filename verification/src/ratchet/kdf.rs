use vstd::prelude::*;

verus! {

/// Name for the 96-byte output of HKDF-SHA-256 extract-and-expand. The output
/// is a function of `(salt, ikm, info)` alone.
pub uninterp spec fn hkdf_okm96_of(salt: Seq<u8>, ikm: Seq<u8>, info: Seq<u8>) -> Seq<u8>;

/// Name for the 32-byte output of HKDF-SHA-256 in expand-only use, where the
/// key material is taken as IKM with an empty salt. The output is a function
/// of `(ikm, info)` alone.
pub uninterp spec fn hkdf_expand32_of(ikm: Seq<u8>, info: Seq<u8>) -> Seq<u8>;

/// HKDF-SHA-256 extract followed by a 96-byte expand.
///
/// Relies on hkdf::Hkdf::<Sha256>::new and expand: the output is deterministic
/// in `(salt, ikm, info)`, and expanding 96 bytes cannot fail (the limit is
/// 255 hash lengths).
#[verifier::external_body]
pub fn hkdf_extract_and_expand_96(salt: &[u8], ikm: &[u8], info: &[u8]) -> (r: [u8; 96])
    ensures
        r@ == hkdf_okm96_of(salt@, ikm@, info@),
{
    let hk = hkdf::Hkdf::<sha2::Sha256>::new(Some(salt), ikm);
    let mut okm = [0u8; 96];
    hk.expand(info, &mut okm).expect("hkdf expand 96");
    okm
}

/// HKDF-SHA-256 in compact expand-only use: `prk` is treated as IKM with an
/// empty salt and expanded to 32 bytes.
///
/// Relies on hkdf::Hkdf::<Sha256>::new and expand: the output is deterministic
/// in `(prk, info)`, and expanding 32 bytes cannot fail.
#[verifier::external_body]
pub fn hkdf_expand_32(prk: &[u8], info: &[u8]) -> (r: [u8; 32])
    ensures
        r@ == hkdf_expand32_of(prk@, info@),
{
    let hk = hkdf::Hkdf::<sha2::Sha256>::new(None, prk);
    let mut okm = [0u8; 32];
    hk.expand(info, &mut okm).expect("hkdf expand 32");
    okm
}

} // verus!
