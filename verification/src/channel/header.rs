use vstd::prelude::*;
use vstd::bytes::{
    lemma_auto_spec_u32_to_from_le_bytes, lemma_auto_spec_u64_to_from_le_bytes,
    spec_u32_from_le_bytes, spec_u32_to_le_bytes, spec_u64_from_le_bytes, spec_u64_to_le_bytes,
    u32_to_le_bytes, u64_to_le_bytes,
};
use vstd::slice::slice_subrange;
use crate::codec::append_bytes;
use crate::hash::{sha256, sha256_of};
use crate::labels::{channel_header_domain, channel_header_domain_bytes};
use crate::types::MsgType;

verus! {

/// Header of a broadcast/channel message. No permanent identifiers: the
/// authoritative address of a sender is `member_ix`, its ordinal inside the
/// channel's member sequence.
#[derive(Clone, Debug, PartialEq, Eq)]
pub struct ChannelHeader {
    /// Always `ChannelMsg` on the wire.
    pub msg_type: MsgType,
    /// Ratchet epoch; recovery increments it.
    pub epoch: u64,
    /// Per-member sending counter.
    pub counter: u64,
    /// Index inside the channel's member sequence (an ephemeral role).
    pub member_ix: u32,
}

/// Canonical encoding of a channel header, 21 bytes, fixed:
/// `[msg_type:1][epoch:8 LE][counter:8 LE][member_ix:4 LE]`.
pub open spec fn channel_header_encoding(h: ChannelHeader) -> Seq<u8> {
    seq![h.msg_type.spec_byte()] + spec_u64_to_le_bytes(h.epoch) + spec_u64_to_le_bytes(h.counter)
        + spec_u32_to_le_bytes(h.member_ix)
}

/// Decoder of the canonical channel-header encoding. Exactly the 21-byte
/// encodings whose tag byte is `ChannelMsg` decode; everything else is
/// rejected.
pub open spec fn channel_header_decoding(b: Seq<u8>) -> Option<ChannelHeader> {
    if b.len() == 21 && b[0] == MsgType::ChannelMsg.spec_byte() {
        Option::Some(
            ChannelHeader {
                msg_type: MsgType::ChannelMsg,
                epoch: spec_u64_from_le_bytes(b.subrange(1, 9)),
                counter: spec_u64_from_le_bytes(b.subrange(9, 17)),
                member_ix: spec_u32_from_le_bytes(b.subrange(17, 21)),
            },
        )
    } else {
        Option::None
    }
}

/// Domain-separated hash of a channel header, used as AEAD associated data
/// and as gate context.
pub open spec fn channel_header_hash(h: ChannelHeader) -> Seq<u8> {
    sha256_of(channel_header_domain() + channel_header_encoding(h))
}

impl ChannelHeader {
    /// Canonical bytes of the header: 21 bytes, fixed layout.
    pub fn to_bytes(&self) -> (r: Vec<u8>)
        ensures
            r@ == channel_header_encoding(*self),
            r@.len() == 21,
    {
        proof {
            lemma_auto_spec_u64_to_from_le_bytes();
            lemma_auto_spec_u32_to_from_le_bytes();
        }
        let mut out: Vec<u8> = Vec::new();
        out.push(self.msg_type.byte());
        let epoch_bytes = u64_to_le_bytes(self.epoch);
        append_bytes(&mut out, epoch_bytes.as_slice());
        let counter_bytes = u64_to_le_bytes(self.counter);
        append_bytes(&mut out, counter_bytes.as_slice());
        let ix_bytes = u32_to_le_bytes(self.member_ix);
        append_bytes(&mut out, ix_bytes.as_slice());
        proof {
            assert(out@ =~= channel_header_encoding(*self));
        }
        out
    }

    /// Parses a canonical 21-byte channel-header encoding.
    pub fn from_bytes(bytes: &[u8]) -> (r: Option<ChannelHeader>)
        ensures
            r == channel_header_decoding(bytes@),
    {
        proof {
            lemma_auto_spec_u64_to_from_le_bytes();
            lemma_auto_spec_u32_to_from_le_bytes();
        }
        if bytes.len() != 21 {
            return None;
        }
        if bytes[0] != 2u8 {
            return None;
        }
        let epoch = vstd::bytes::u64_from_le_bytes(slice_subrange(bytes, 1, 9));
        let counter = vstd::bytes::u64_from_le_bytes(slice_subrange(bytes, 9, 17));
        let member_ix = vstd::bytes::u32_from_le_bytes(slice_subrange(bytes, 17, 21));
        Some(ChannelHeader { msg_type: MsgType::ChannelMsg, epoch, counter, member_ix })
    }

    /// Domain-separated SHA-256 of the canonical header bytes.
    pub fn hash(&self) -> (r: [u8; 32])
        ensures
            r@ == channel_header_hash(*self),
    {
        let mut buf: Vec<u8> = Vec::new();
        append_bytes(&mut buf, channel_header_domain_bytes());
        let encoded = self.to_bytes();
        append_bytes(&mut buf, encoded.as_slice());
        proof {
            assert(buf@ =~= channel_header_domain() + channel_header_encoding(*self));
        }
        sha256(buf.as_slice())
    }
}

/// Round-trip law of the channel-header codec: for every header whose tag is
/// `ChannelMsg`, the canonical encoding is 21 bytes and decodes back to
/// exactly the same header.
pub proof fn lemma_channel_header_round_trip(h: ChannelHeader)
    requires
        h.msg_type == MsgType::ChannelMsg,
    ensures
        channel_header_encoding(h).len() == 21,
        channel_header_decoding(channel_header_encoding(h)) == Option::Some(h),
{
    lemma_auto_spec_u64_to_from_le_bytes();
    lemma_auto_spec_u32_to_from_le_bytes();
    let b = channel_header_encoding(h);
    assert(b.subrange(1, 9) =~= spec_u64_to_le_bytes(h.epoch));
    assert(b.subrange(9, 17) =~= spec_u64_to_le_bytes(h.counter));
    assert(b.subrange(17, 21) =~= spec_u32_to_le_bytes(h.member_ix));
}

} // verus!
