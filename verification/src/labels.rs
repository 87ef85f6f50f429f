use vstd::prelude::*;
use vstd::string::StringSliceAdditionalSpecFns;

verus! {

// Domain separators and KDF labels of the wire contract. All are stable ASCII
// byte strings with a protocol-version prefix; peers must agree on them.

/// Domain separator mixed into the deterministic envelope nonce.
pub open spec fn nonce_domain() -> Seq<u8> {
    "carthedge/v0.3/envelope_v2/nonce".spec_bytes()
}

pub fn nonce_domain_bytes() -> (r: &'static [u8])
    ensures
        r@ == nonce_domain(),
{
    "carthedge/v0.3/envelope_v2/nonce".as_bytes()
}

/// Domain separator of the transcript hash over the handshake ephemerals.
pub open spec fn transcript_domain() -> Seq<u8> {
    "carthedge/v0.2.2/transcript".spec_bytes()
}

pub fn transcript_domain_bytes() -> (r: &'static [u8])
    ensures
        r@ == transcript_domain(),
{
    "carthedge/v0.2.2/transcript".as_bytes()
}

/// HKDF info label under which the session keys are derived.
pub open spec fn session_keys_label() -> Seq<u8> {
    "carthedge/v0.2.2/session_keys".spec_bytes()
}

pub fn session_keys_label_bytes() -> (r: &'static [u8])
    ensures
        r@ == session_keys_label(),
{
    "carthedge/v0.2.2/session_keys".as_bytes()
}

/// Domain separator of the policy-context digest used by `ratchet_step`.
pub open spec fn ratchet_step_domain() -> Seq<u8> {
    "carthedge/v0.2.2.1/ratchet_step".spec_bytes()
}

pub fn ratchet_step_domain_bytes() -> (r: &'static [u8])
    ensures
        r@ == ratchet_step_domain(),
{
    "carthedge/v0.2.2.1/ratchet_step".as_bytes()
}

/// HKDF info label of the message key derived by `ratchet_step`.
pub open spec fn step_msg_key_label() -> Seq<u8> {
    "carthedge/v0.2.2/msg_key".spec_bytes()
}

pub fn step_msg_key_label_bytes() -> (r: &'static [u8])
    ensures
        r@ == step_msg_key_label(),
{
    "carthedge/v0.2.2/msg_key".as_bytes()
}

/// HKDF info label of the next chain key derived by `ratchet_step`.
pub open spec fn step_chain_key_label() -> Seq<u8> {
    "carthedge/v0.2.2/chain_key".spec_bytes()
}

pub fn step_chain_key_label_bytes() -> (r: &'static [u8])
    ensures
        r@ == step_chain_key_label(),
{
    "carthedge/v0.2.2/chain_key".as_bytes()
}

/// Domain separator of the ratchet header hash.
pub open spec fn ratchet_header_domain() -> Seq<u8> {
    "carthedge/v0.2.2.2/header_hash".spec_bytes()
}

pub fn ratchet_header_domain_bytes() -> (r: &'static [u8])
    ensures
        r@ == ratchet_header_domain(),
{
    "carthedge/v0.2.2.2/header_hash".as_bytes()
}

/// Domain separator of the channel header hash.
pub open spec fn channel_header_domain() -> Seq<u8> {
    "carthedge/v0.3.5/channel_header_hash".spec_bytes()
}

pub fn channel_header_domain_bytes() -> (r: &'static [u8])
    ensures
        r@ == channel_header_domain(),
{
    "carthedge/v0.3.5/channel_header_hash".as_bytes()
}

/// Domain separator of the skipped-key identifier digest.
pub open spec fn skipped_key_id_domain() -> Seq<u8> {
    "carthedge/v0.3.5/skipped_key_id".spec_bytes()
}

pub fn skipped_key_id_domain_bytes() -> (r: &'static [u8])
    ensures
        r@ == skipped_key_id_domain(),
{
    "carthedge/v0.3.5/skipped_key_id".as_bytes()
}

/// HKDF info label of the per-message key on the send and receive chains.
pub open spec fn chain_mk_label() -> Seq<u8> {
    "carthedge/ratchet/mk".spec_bytes()
}

pub fn chain_mk_label_bytes() -> (r: &'static [u8])
    ensures
        r@ == chain_mk_label(),
{
    "carthedge/ratchet/mk".as_bytes()
}

/// HKDF info label of the next chain key on the send and receive chains.
pub open spec fn chain_ck_label() -> Seq<u8> {
    "carthedge/ratchet/ck".spec_bytes()
}

pub fn chain_ck_label_bytes() -> (r: &'static [u8])
    ensures
        r@ == chain_ck_label(),
{
    "carthedge/ratchet/ck".as_bytes()
}

} // verus!
