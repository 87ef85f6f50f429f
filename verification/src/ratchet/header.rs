use vstd::prelude::*;
use vstd::bytes::{lemma_auto_spec_u64_to_from_le_bytes, spec_u64_to_le_bytes, u64_to_le_bytes};
use crate::codec::append_bytes;
use crate::hash::{sha256, sha256_of};
use crate::labels::{ratchet_header_domain, ratchet_header_domain_bytes};
use crate::types::MsgType;

verus! {

/// Minimal header of a pairwise ratchet message. No permanent identifiers.
#[derive(Clone, Debug, PartialEq, Eq)]
pub struct RatchetHeader {
    /// Always `RatchetMsg` on the wire.
    pub msg_type: MsgType,
    /// Monotone counter of the sending chain.
    pub counter: u64,
    /// Counter of the previous sending chain, for out-of-order handling.
    pub prev_counter: u64,
    /// Reserved for a future Diffie-Hellman ratchet extension.
    pub dh_pub: Option<[u8; 32]>,
}

/// Canonical encoding of a ratchet header:
/// `[msg_type:1][counter:8 LE][prev_counter:8 LE][dh_flag:1][dh_pub:32?]`.
pub open spec fn ratchet_header_encoding(h: RatchetHeader) -> Seq<u8> {
    seq![h.msg_type.spec_byte()] + spec_u64_to_le_bytes(h.counter) + spec_u64_to_le_bytes(
        h.prev_counter,
    ) + match h.dh_pub {
        Option::None => seq![0u8],
        Option::Some(pk) => seq![1u8] + pk@,
    }
}

/// Domain-separated hash of a ratchet header, used as AEAD associated data
/// and as gate context.
pub open spec fn ratchet_header_hash(h: RatchetHeader) -> Seq<u8> {
    sha256_of(ratchet_header_domain() + ratchet_header_encoding(h))
}

impl RatchetHeader {
    /// Canonical bytes of the header; a stable manual encoding, free of any
    /// serialization-format ambiguity.
    pub fn to_bytes(&self) -> (r: Vec<u8>)
        ensures
            r@ == ratchet_header_encoding(*self),
    {
        proof {
            lemma_auto_spec_u64_to_from_le_bytes();
        }
        let mut out: Vec<u8> = Vec::new();
        out.push(self.msg_type.byte());
        let counter_bytes = u64_to_le_bytes(self.counter);
        append_bytes(&mut out, counter_bytes.as_slice());
        let prev_bytes = u64_to_le_bytes(self.prev_counter);
        append_bytes(&mut out, prev_bytes.as_slice());
        match self.dh_pub {
            Option::None => {
                out.push(0u8);
            },
            Option::Some(pk) => {
                out.push(1u8);
                append_bytes(&mut out, pk.as_slice());
            },
        }
        proof {
            assert(out@ =~= ratchet_header_encoding(*self));
        }
        out
    }

    /// Domain-separated SHA-256 of the canonical header bytes.
    pub fn hash(&self) -> (r: [u8; 32])
        ensures
            r@ == ratchet_header_hash(*self),
    {
        let mut buf: Vec<u8> = Vec::new();
        append_bytes(&mut buf, ratchet_header_domain_bytes());
        let encoded = self.to_bytes();
        append_bytes(&mut buf, encoded.as_slice());
        proof {
            assert(buf@ =~= ratchet_header_domain() + ratchet_header_encoding(*self));
        }
        sha256(buf.as_slice())
    }
}

} // verus!
