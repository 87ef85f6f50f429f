use vstd::prelude::*;
use crate::ratchet::state::{zero_key, RatchetState};

verus! {

/// Local bookkeeping identifier of a member. It never appears on the wire:
/// the wire address is the member's ordinal inside the channel.
pub type MemberId = [u8; 32];

/// One channel member, owning its ratchet exclusively.
pub struct ChannelMember {
    pub member_id: MemberId,
    pub ratchet: RatchetState,
}

impl ChannelMember {
    pub fn new(member_id: MemberId, ratchet: RatchetState) -> (r: Self)
        ensures
            r.member_id == member_id,
            r.ratchet == ratchet,
    {
        ChannelMember { member_id, ratchet }
    }

    /// Deterministic constructor for offline use: the all-zero local id.
    pub fn new_for_tests(ratchet: RatchetState) -> (r: Self)
        ensures
            r.member_id@ == zero_key(),
            r.ratchet == ratchet,
    {
        let member_id: [u8; 32] = [0u8; 32];
        proof {
            assert(member_id@ =~= zero_key());
        }
        ChannelMember { member_id, ratchet }
    }
}

} // verus!
