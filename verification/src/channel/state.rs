use vstd::prelude::*;
use vstd::bytes::u64_to_le_bytes;
use crate::channel::member::ChannelMember;
use crate::error::CoreError;
use crate::qkr_gate::QkrGate;
use crate::ratchet::state::{wrap_inc, wrap_inc_exec};

verus! {

/// A channel: an ordered sequence of members, each owning a ratchet, sharing
/// one channel epoch. Wire `member_ix` values are indices into `members`;
/// additions append, so indices are stable for the channel's lifetime.
pub struct ChannelState {
    pub members: Vec<ChannelMember>,
    pub epoch: u64,
}

impl ChannelState {
    /// An empty channel at epoch 0.
    pub fn new() -> (r: Self)
        ensures
            r.members@.len() == 0,
            r.epoch == 0,
    {
        ChannelState { members: Vec::new(), epoch: 0 }
    }

    /// Appends a member and returns its ordinal, the authoritative wire
    /// `member_ix`.
    pub fn add_member(&mut self, member: ChannelMember) -> (r: u32)
        requires
            old(self).members@.len() < 0x1_0000_0000,
        ensures
            r as int == old(self).members@.len(),
            final(self).members@ == old(self).members@.push(member),
            final(self).epoch == old(self).epoch,
    {
        let ix = self.members.len() as u32;
        self.members.push(member);
        ix
    }

    /// Mutable access to the member at ordinal `ix`; a missing index fails
    /// with `InvalidEnvelope`.
    pub fn member_mut(&mut self, ix: u32) -> (r: Result<&mut ChannelMember, CoreError>)
        ensures
            (ix as int) >= old(self).members@.len() ==> r is Err && *final(self) == *old(self),
            (ix as int) < old(self).members@.len() ==> r is Ok && *r->Ok_0 == old(self).members@[ix
                as int] && final(self).members@ == old(self).members@.update(
                ix as int,
                *final(r->Ok_0),
            ) && final(self).epoch == old(self).epoch,
            r is Err ==> r == Err::<&mut ChannelMember, CoreError>(CoreError::InvalidEnvelope),
    {
        let n = self.members.len();
        if (ix as usize) < n {
            Ok(&mut self.members[ix as usize])
        } else {
            Err(CoreError::InvalidEnvelope)
        }
    }

    /// Channel-wide epoch rotation, the foundation of recovery and
    /// policy-driven resync. Gated as `channel_rotate` over the current
    /// epoch in little-endian bytes. On an allowed
    /// decision the epoch advances by one; on any failure the channel is
    /// untouched.
    pub fn rotate<G: QkrGate>(&mut self, gate: &G) -> (r: Result<(), CoreError>)
        ensures
            r is Ok ==> final(self).epoch == wrap_inc(old(self).epoch) && final(self).members
                == old(self).members,
            r is Err ==> *final(self) == *old(self),
    {
        let ctx = u64_to_le_bytes(self.epoch);
        let dec = gate.gate("channel_rotate", ctx.as_slice())?;
        if !dec.allowed {
            return Err(CoreError::GateBlocked(dec.human));
        }
        self.epoch = wrap_inc_exec(self.epoch);
        Ok(())
    }

    /// Deterministic constructor for offline use: the given members, epoch 0.
    pub fn new_for_tests(members: Vec<ChannelMember>) -> (r: Self)
        ensures
            r.members == members,
            r.epoch == 0,
    {
        ChannelState { members, epoch: 0 }
    }
}

} // verus!
