use vstd::prelude::*;

verus! {

/// Numeric policy reason attached to a gate decision.
#[derive(Clone, Copy, Debug, PartialEq, Eq, Structural)]
pub struct ReasonCode(pub u32);

/// Immutable verdict returned by the policy gate.
#[derive(Clone, Debug)]
pub struct GateDecision {
    pub allowed: bool,
    pub reason_codes: Vec<ReasonCode>,
    pub human: String,
}

/// Tag distinguishing the two message families on the wire.
#[derive(Clone, Copy, Debug, PartialEq, Eq, Structural)]
pub enum MsgType {
    RatchetMsg,
    ChannelMsg,
}

impl MsgType {
    /// Canonical wire byte of the tag.
    pub open spec fn spec_byte(self) -> u8 {
        match self {
            MsgType::RatchetMsg => 1,
            MsgType::ChannelMsg => 2,
        }
    }

    /// Executable counterpart of [`MsgType::spec_byte`].
    pub fn byte(self) -> (r: u8)
        ensures
            r == self.spec_byte(),
    {
        match self {
            MsgType::RatchetMsg => 1,
            MsgType::ChannelMsg => 2,
        }
    }
}

} // verus!
