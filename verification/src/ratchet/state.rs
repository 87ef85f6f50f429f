use vstd::prelude::*;
use crate::error::CoreError;
use crate::labels::{chain_ck_label, chain_ck_label_bytes, chain_mk_label, chain_mk_label_bytes};
use crate::qkr_gate::QkrGate;
use crate::ratchet::dh::DhKeyPair;
use crate::ratchet::kdf::{hkdf_expand32_of, hkdf_expand_32};
use crate::ratchet::skipped::SkippedKeyStore;

verus! {

/// Status tag of the ratchet state machine: `Running` permits cryptographic
/// evolution; `Locked` refuses it until a gated recovery succeeds.
#[derive(Clone, Copy, Debug, PartialEq, Eq, Structural)]
pub enum RatchetStatus {
    Running,
    Locked,
}

/// One chain-key evolution step: HKDF-expand of the chain key under the
/// chain-key label. Chain keys evolve only through this function.
pub open spec fn next_chain_key(ck: Seq<u8>) -> Seq<u8> {
    hkdf_expand32_of(ck, chain_ck_label())
}

/// The message key derived from a chain key under the message-key label.
pub open spec fn chain_msg_key(ck: Seq<u8>) -> Seq<u8> {
    hkdf_expand32_of(ck, chain_mk_label())
}

/// The chain key after `n` evolution steps.
pub open spec fn chain_after(ck: Seq<u8>, n: nat) -> Seq<u8>
    decreases n,
{
    if n == 0 {
        ck
    } else {
        next_chain_key(chain_after(ck, (n - 1) as nat))
    }
}

/// Counter increment with the wrapping semantics of the wire counters. The
/// wrap from `u64::MAX` to 0 is an implementation artifact, unreachable
/// within protocol lifetimes.
pub open spec fn wrap_inc(x: u64) -> u64 {
    if x == 0xffff_ffff_ffff_ffff {
        0
    } else {
        (x + 1) as u64
    }
}

pub(crate) fn wrap_inc_exec(x: u64) -> (r: u64)
    ensures
        r == wrap_inc(x),
{
    if x == u64::MAX {
        0
    } else {
        x + 1
    }
}

/// The all-zero 32-byte key, the deterministic seed of offline states.
pub open spec fn zero_key() -> Seq<u8> {
    Seq::new(32, |i: int| 0u8)
}

/// The fields of a ratchet state that a send-side operation never touches.
pub open spec fn send_op_frame(r0: RatchetState, r1: RatchetState) -> bool {
    &&& r1.status == r0.status
    &&& r1.root_key == r0.root_key
    &&& r1.chain_key_recv == r0.chain_key_recv
    &&& r1.recv_counter == r0.recv_counter
    &&& r1.dh_local == r0.dh_local
    &&& r1.dh_remote == r0.dh_remote
    &&& r1.epoch == r0.epoch
    &&& r1.skipped == r0.skipped
}

/// The fields of a ratchet state that a receive-chain step never touches.
pub open spec fn recv_step_frame(r0: RatchetState, r1: RatchetState) -> bool {
    &&& r1.status == r0.status
    &&& r1.root_key == r0.root_key
    &&& r1.chain_key_send == r0.chain_key_send
    &&& r1.send_counter == r0.send_counter
    &&& r1.prev_send_counter == r0.prev_send_counter
    &&& r1.dh_local == r0.dh_local
    &&& r1.dh_remote == r0.dh_remote
    &&& r1.epoch == r0.epoch
    &&& r1.skipped == r0.skipped
}

/// Minimal Signal-style symmetric ratchet state. All sensitive evolution is
/// gated through `QkrGate`, and behavior is deterministic for offline use.
pub struct RatchetState {
    pub status: RatchetStatus,
    pub root_key: [u8; 32],
    pub chain_key_send: [u8; 32],
    pub chain_key_recv: [u8; 32],
    pub send_counter: u64,
    pub recv_counter: u64,
    pub prev_send_counter: u64,
    pub dh_local: DhKeyPair,
    pub dh_remote: Option<[u8; 32]>,
    pub epoch: u64,
    pub skipped: SkippedKeyStore,
}

impl RatchetState {
    /// Canonical constructor from handshake-derived keys.
    pub fn new(root: [u8; 32], ck_s: [u8; 32], ck_r: [u8; 32]) -> (r: Self)
        ensures
            r.status == RatchetStatus::Running,
            r.root_key == root,
            r.chain_key_send == ck_s,
            r.chain_key_recv == ck_r,
            r.send_counter == 0,
            r.recv_counter == 0,
            r.prev_send_counter == 0,
            r.dh_remote is None,
            r.epoch == 0,
            r.skipped@ == Map::<u64, [u8; 32]>::empty(),
            r.skipped.spec_cap() == 64,
    {
        RatchetState {
            status: RatchetStatus::Running,
            root_key: root,
            chain_key_send: ck_s,
            chain_key_recv: ck_r,
            send_counter: 0,
            recv_counter: 0,
            prev_send_counter: 0,
            dh_local: DhKeyPair::generate(),
            dh_remote: None,
            epoch: 0,
            skipped: SkippedKeyStore::new(64),
        }
    }

    /// Deterministic all-zero state for offline use; governance still applies
    /// at runtime.
    pub fn dummy() -> (r: Self)
        ensures
            r.status == RatchetStatus::Running,
            r.root_key@ == zero_key(),
            r.chain_key_send@ == zero_key(),
            r.chain_key_recv@ == zero_key(),
            r.send_counter == 0,
            r.recv_counter == 0,
            r.prev_send_counter == 0,
            r.dh_remote is None,
            r.epoch == 0,
            r.skipped@ == Map::<u64, [u8; 32]>::empty(),
            r.skipped.spec_cap() == 64,
    {
        let zero: [u8; 32] = [0u8; 32];
        proof {
            assert(zero@ =~= zero_key());
        }
        RatchetState::new(zero, zero, zero)
    }

    /// Locks the ratchet: no cryptographic progress until recovery.
    pub fn lock(&mut self)
        ensures
            *final(self) == (RatchetState { status: RatchetStatus::Locked, ..*old(self) }),
    {
        self.status = RatchetStatus::Locked;
    }

    /// Recovers a ratchet through governance: on an allowed decision the
    /// state returns to `Running` and the epoch advances by one; on any
    /// failure the state is untouched.
    pub fn force_recover<G: QkrGate>(&mut self, gate: &G) -> (r: Result<(), CoreError>)
        ensures
            r is Ok ==> *final(self) == (RatchetState {
                status: RatchetStatus::Running,
                epoch: wrap_inc(old(self).epoch),
                ..*old(self)
            }),
            r is Err ==> *final(self) == *old(self),
    {
        let dec = gate.gate("ratchet_recover", "force".as_bytes())?;
        if !dec.allowed {
            return Err(CoreError::GateBlocked(dec.human));
        }
        self.status = RatchetStatus::Running;
        self.epoch = wrap_inc_exec(self.epoch);
        Ok(())
    }

    /// Derives the next message key from the send chain and advances it.
    ///
    /// On success the message key is derived from the pre-step chain key, the
    /// chain key evolves once, and the send counter advances by one. A locked
    /// ratchet fails with `RatchetLocked`; any failure leaves the state
    /// untouched.
    pub fn ratchet_next_message_key<G: QkrGate>(&mut self, gate: &G) -> (r: Result<
        [u8; 32],
        CoreError,
    >)
        ensures
            old(self).status != RatchetStatus::Running ==> r == Err::<[u8; 32], CoreError>(
                CoreError::RatchetLocked,
            ),
            r is Err ==> *final(self) == *old(self),
            r is Ok ==> {
                &&& old(self).status == RatchetStatus::Running
                &&& r->Ok_0@ == chain_msg_key(old(self).chain_key_send@)
                &&& final(self).chain_key_send@ == next_chain_key(old(self).chain_key_send@)
                &&& final(self).send_counter == wrap_inc(old(self).send_counter)
                &&& final(self).prev_send_counter == old(self).prev_send_counter
                &&& send_op_frame(*old(self), *final(self))
            },
    {
        if self.status != RatchetStatus::Running {
            return Err(CoreError::RatchetLocked);
        }
        let dec = gate.gate("ratchet_msg_key", self.chain_key_send.as_slice())?;
        if !dec.allowed {
            return Err(CoreError::GateBlocked(dec.human));
        }
        let mk = hkdf_expand_32(self.chain_key_send.as_slice(), chain_mk_label_bytes());
        let ck_next = hkdf_expand_32(self.chain_key_send.as_slice(), chain_ck_label_bytes());
        self.chain_key_send = ck_next;
        self.send_counter = wrap_inc_exec(self.send_counter);
        Ok(mk)
    }

    /// Advances the receive chain once (gated).
    ///
    /// On success the receive chain key evolves once and the receive counter
    /// advances by one; any failure leaves the state untouched.
    pub fn ratchet_step_recv<G: QkrGate>(&mut self, gate: &G) -> (r: Result<(), CoreError>)
        ensures
            old(self).status != RatchetStatus::Running ==> r == Err::<(), CoreError>(
                CoreError::RatchetLocked,
            ),
            r is Err ==> *final(self) == *old(self),
            r is Ok ==> {
                &&& old(self).status == RatchetStatus::Running
                &&& final(self).chain_key_recv@ == next_chain_key(old(self).chain_key_recv@)
                &&& final(self).recv_counter == wrap_inc(old(self).recv_counter)
                &&& recv_step_frame(*old(self), *final(self))
            },
    {
        if self.status != RatchetStatus::Running {
            return Err(CoreError::RatchetLocked);
        }
        let dec = gate.gate("ratchet_step_recv", self.chain_key_recv.as_slice())?;
        if !dec.allowed {
            return Err(CoreError::GateBlocked(dec.human));
        }
        self.chain_key_recv = hkdf_expand_32(self.chain_key_recv.as_slice(), chain_ck_label_bytes());
        self.recv_counter = wrap_inc_exec(self.recv_counter);
        Ok(())
    }

    /// Advances the send chain once (gated).
    ///
    /// On success `prev_send_counter` takes the pre-step `send_counter`, the
    /// send counter advances by one, and the chain key evolves once. A denied
    /// or failed step leaves both counters and the chain key exactly as they
    /// were before the call.
    pub fn step_send<G: QkrGate>(&mut self, gate: &G) -> (r: Result<(), CoreError>)
        ensures
            old(self).status != RatchetStatus::Running ==> r == Err::<(), CoreError>(
                CoreError::RatchetLocked,
            ),
            r is Err ==> *final(self) == *old(self),
            r is Ok ==> {
                &&& old(self).status == RatchetStatus::Running
                &&& final(self).prev_send_counter == old(self).send_counter
                &&& final(self).send_counter == wrap_inc(old(self).send_counter)
                &&& final(self).chain_key_send@ == next_chain_key(old(self).chain_key_send@)
                &&& send_op_frame(*old(self), *final(self))
            },
    {
        if self.status != RatchetStatus::Running {
            return Err(CoreError::RatchetLocked);
        }
        let dec = gate.gate("ratchet_msg_key", self.chain_key_send.as_slice())?;
        if !dec.allowed {
            return Err(CoreError::GateBlocked(dec.human));
        }
        self.prev_send_counter = self.send_counter;
        self.send_counter = wrap_inc_exec(self.send_counter);
        self.chain_key_send = hkdf_expand_32(self.chain_key_send.as_slice(), chain_ck_label_bytes());
        Ok(())
    }

    /// Alias of [`RatchetState::ratchet_step_recv`], kept for integrations
    /// that advance the receive chain under this name.
    pub fn step_recv<G: QkrGate>(&mut self, gate: &G) -> (r: Result<(), CoreError>)
        ensures
            old(self).status != RatchetStatus::Running ==> r == Err::<(), CoreError>(
                CoreError::RatchetLocked,
            ),
            r is Err ==> *final(self) == *old(self),
            r is Ok ==> {
                &&& old(self).status == RatchetStatus::Running
                &&& final(self).chain_key_recv@ == next_chain_key(old(self).chain_key_recv@)
                &&& final(self).recv_counter == wrap_inc(old(self).recv_counter)
                &&& recv_step_frame(*old(self), *final(self))
            },
    {
        self.ratchet_step_recv(gate)
    }
}

/// Determinism of the chains: two ratchets that start from the same chain key
/// and take the same number of gated steps hold the same chain key, and the
/// message key derived at every step is the same on both sides.
pub proof fn lemma_chain_determinism(ck1: Seq<u8>, ck2: Seq<u8>, n: nat)
    requires
        ck1 == ck2,
    ensures
        chain_after(ck1, n) == chain_after(ck2, n),
        chain_msg_key(chain_after(ck1, n)) == chain_msg_key(chain_after(ck2, n)),
{
}

} // verus!
