use vstd::prelude::*;
use vstd::bytes::u64_to_le_bytes;
use crate::aead::aead_cipher_of;
use crate::channel::header::{channel_header_encoding, channel_header_hash, ChannelHeader};
use crate::channel::state::ChannelState;
use crate::codec::{append_bytes, bytes_eq};
use crate::envelope::EnvelopeV2;
use crate::error::CoreError;
use crate::hash::sha256;
use crate::labels::skipped_key_id_domain_bytes;
use crate::qkr_gate::QkrGate;
use crate::ratchet::state::{chain_after, chain_msg_key, RatchetState};
use crate::ratchet::kdf::hkdf_expand_32;
use crate::labels::chain_mk_label_bytes;

verus! {

/// The fields of a ratchet that the receive path never touches: everything
/// but the receive chain, the receive counter and the skipped-key contents.
pub open spec fn recv_op_frame(r0: RatchetState, r1: RatchetState) -> bool {
    &&& r1.status == r0.status
    &&& r1.root_key == r0.root_key
    &&& r1.chain_key_send == r0.chain_key_send
    &&& r1.send_counter == r0.send_counter
    &&& r1.prev_send_counter == r0.prev_send_counter
    &&& r1.dh_local == r0.dh_local
    &&& r1.dh_remote == r0.dh_remote
    &&& r1.epoch == r0.epoch
    &&& r1.skipped.spec_cap() == r0.skipped.spec_cap()
}

/// The ratchet after `steps` receive-chain steps from `r0`, with skipped keys
/// stored for the first `puts` stepped-over counters: the receive chain has
/// evolved `steps` times, the receive counter has advanced by `steps`
/// (wrapping), and the store holds exactly the keys of counters
/// `r0.recv_counter .. r0.recv_counter + puts` on top of its old contents.
pub open spec fn ff_advance(r0: RatchetState, r1: RatchetState, steps: nat, puts: nat) -> bool {
    let exp = r0.recv_counter;
    &&& recv_op_frame(r0, r1)
    &&& r1.chain_key_recv@ == chain_after(r0.chain_key_recv@, steps)
    &&& r1.recv_counter as int == (if exp + steps <= 0xffff_ffff_ffff_ffff {
        exp + steps
    } else {
        exp + steps - 0x1_0000_0000_0000_0000
    })
    &&& forall|k: u64|
        #![trigger r1.skipped@.contains_key(k)]
        #![trigger r0.skipped@.contains_key(k)]
        !(exp <= k < exp + puts) ==> (r1.skipped@.contains_key(k) <==> r0.skipped@.contains_key(k))
            && (r0.skipped@.contains_key(k) ==> r1.skipped@[k] == r0.skipped@[k])
    &&& forall|c: u64|
        #![trigger r1.skipped@.contains_key(c)]
        exp <= c < exp + puts ==> r1.skipped@.contains_key(c) && r1.skipped@[c]@ == chain_msg_key(
            chain_after(r0.chain_key_recv@, (c - exp + 1) as nat),
        )
}

/// The consistency guarantee of an interrupted fast-forward over a gap of
/// `gap` counters: the ratchet took some number of whole receive-chain steps,
/// every stepped-over counter up to possibly the last one has its key in the
/// store, and nothing is rolled back, so the state stays usable for a retry.
pub open spec fn ff_partial(r0: RatchetState, r1: RatchetState, gap: int) -> bool {
    exists|steps: nat, puts: nat|
        steps <= gap + 1 && puts <= gap && steps <= puts + 1 && ff_advance(r0, r1, steps, puts)
}

/// The receive side of the ratchet is untouched, up to the skipped store's
/// contents being equal.
pub open spec fn recv_unchanged(r0: RatchetState, r1: RatchetState) -> bool {
    &&& recv_op_frame(r0, r1)
    &&& r1.chain_key_recv == r0.chain_key_recv
    &&& r1.recv_counter == r0.recv_counter
    &&& r1.skipped@ == r0.skipped@
}

/// The ratchet after a skipped key was taken for counter `c`: only the store
/// changed, and exactly by removing `c`.
pub open spec fn skipped_take_post(r0: RatchetState, r1: RatchetState, c: u64) -> bool {
    &&& recv_op_frame(r0, r1)
    &&& r1.chain_key_recv == r0.chain_key_recv
    &&& r1.recv_counter == r0.recv_counter
    &&& r1.skipped@ == r0.skipped@.remove(c)
}

///`out` is the plaintext of `env` under `key`: whenever the ciphertext is an
/// AEAD sealing of some plaintext under `key` and the envelope's own nonce
/// and associated data, `out` is that plaintext.
pub open spec fn opens_to(env: EnvelopeV2, key: Seq<u8>, out: Seq<u8>) -> bool {
    forall|p: Seq<u8>|
        env.ciphertext@ == aead_cipher_of(key, env.nonce12@, env.aad@, p) ==> out == p
}

/// The full precondition ladder of the channel receive path: right message
/// type, right member ordinal, a member present at it, matching epoch, and an
/// envelope bound to exactly this header.
pub open spec fn recv_checks(
    ch: ChannelState,
    member_ix: u32,
    h: ChannelHeader,
    env: EnvelopeV2,
) -> bool {
    &&& h.msg_type == crate::types::MsgType::ChannelMsg
    &&& h.member_ix == member_ix
    &&& (h.member_ix as int) < ch.members@.len()
    &&& h.epoch == ch.members@[h.member_ix as int].ratchet.epoch
    &&& env.header@ == channel_header_encoding(h)
    &&& env.aad@ == channel_header_hash(h)
}

/// Dispatches a validated channel message on the member's ratchet by counter
/// order: the normal path at the expected counter, the skipped-store path
/// below it, and the gated fast-forward path above it.
pub(crate) fn recv_dispatch<G: QkrGate>(
    rs: &mut RatchetState,
    gate: &G,
    header: &ChannelHeader,
    env: &EnvelopeV2,
) -> (r: Result<Vec<u8>, CoreError>)
    ensures
        header.counter < old(rs).recv_counter ==> {
            &&& (r is Ok ==> old(rs).skipped@.contains_key(header.counter) && skipped_take_post(
                *old(rs),
                *final(rs),
                header.counter,
            ) && opens_to(*env, old(rs).skipped@[header.counter]@, r->Ok_0@))
            &&& (r is Err ==> recv_unchanged(*old(rs), *final(rs)) || (old(
                rs,
            ).skipped@.contains_key(header.counter) && skipped_take_post(
                *old(rs),
                *final(rs),
                header.counter,
            ) && r == Err::<Vec<u8>, CoreError>(CoreError::InvalidEnvelope)))
        },
        header.counter >= old(rs).recv_counter ==> {
            let gap = header.counter - old(rs).recv_counter;
            &&& (r is Ok ==> ff_advance(*old(rs), *final(rs), (gap + 1) as nat, gap as nat)
                && opens_to(*env, chain_msg_key(final(rs).chain_key_recv@), r->Ok_0@))
            &&& (r is Err ==> ff_partial(*old(rs), *final(rs), gap as int))
        },
{
    let exp = rs.recv_counter;
    if header.counter < exp {
        // Out-of-order or replay: consult the skipped store, behind its own gate.
        let mut buf: Vec<u8> = Vec::new();
        append_bytes(&mut buf, skipped_key_id_domain_bytes());
        let epoch_bytes = u64_to_le_bytes(header.epoch);
        append_bytes(&mut buf, epoch_bytes.as_slice());
        let counter_bytes = u64_to_le_bytes(header.counter);
        append_bytes(&mut buf, counter_bytes.as_slice());
        let key_id = sha256(buf.as_slice());
        let d2 = gate.gate("skipped_key_use", key_id.as_slice())?;
        if !d2.allowed {
            return Err(CoreError::GateBlocked(d2.human));
        }
        match rs.skipped.take(header.counter) {
            Some(mk) => env.open(&mk),
            None => Err(CoreError::ReplayDetected),
        }
    } else {
        // Future counter: derive and store the skipped keys of the stepped-over
        // gap, each step individually gated, then take the normal path.
        let ghost rs0 = *old(rs);
        let mut c = exp;
        proof {
            assert(ff_advance(rs0, *rs, 0, 0));
        }
        while c < header.counter
            invariant
                rs0 == *old(rs),
                exp <= c <= header.counter,
                exp == rs0.recv_counter,
                ff_advance(rs0, *rs, (c - exp) as nat, (c - exp) as nat),
            decreases header.counter - c,
        {
            let ghost steps_before = (c - exp) as nat;
            match rs.ratchet_step_recv(gate) {
                Ok(()) => {},
                Err(e) => {
                    proof {
                        let gap = header.counter - rs0.recv_counter;
                        assert(ff_partial(rs0, *rs, gap)) by {
                            assert(ff_advance(rs0, *rs, steps_before, steps_before));
                        }
                    }
                    return Err(e);
                },
            }
            proof {
                assert(chain_after(rs0.chain_key_recv@, steps_before + 1) == crate::ratchet::state::next_chain_key(
                    chain_after(rs0.chain_key_recv@, steps_before),
                ));
            }
            let mk = hkdf_expand_32(rs.chain_key_recv.as_slice(), chain_mk_label_bytes());
            match rs.skipped.put(c, mk) {
                Ok(()) => {},
                Err(_) => {
                    proof {
                        let gap = header.counter - rs0.recv_counter;
                        assert(ff_partial(rs0, *rs, gap)) by {
                            assert(ff_advance(rs0, *rs, steps_before + 1, steps_before));
                        }
                    }
                    return Err(CoreError::SkippedStoreError);
                },
            }
            c = c + 1;
        }
        let ghost gap = (header.counter - exp) as nat;
        match rs.ratchet_step_recv(gate) {
            Ok(()) => {},
            Err(e) => {
                proof {
                    assert(ff_partial(rs0, *rs, gap as int)) by {
                        assert(ff_advance(rs0, *rs, gap, gap));
                    }
                }
                return Err(e);
            },
        }
        proof {
            assert(chain_after(rs0.chain_key_recv@, gap + 1) == crate::ratchet::state::next_chain_key(
                chain_after(rs0.chain_key_recv@, gap),
            ));
            assert(ff_advance(rs0, *rs, gap + 1, gap));
        }
        let mk = hkdf_expand_32(rs.chain_key_recv.as_slice(), chain_mk_label_bytes());
        env.open(&mk)
    }
}

/// One key per accepted message: a successful in-order or fast-forward
/// receive at counter `c` advances the receive counter past `c`, and the
/// skipped keys it stores are exactly those of the stepped-over counters
/// strictly below `c` -- never one for `c` itself. So the chain path cannot
/// accept counter `c` twice, and a later receive of `c` can only go through
/// the skipped store, whose take removes the key it returns.
pub proof fn lemma_one_key_per_accept(r0: RatchetState, r1: RatchetState, c: u64)
    requires
        c >= r0.recv_counter,
        ff_advance(r0, r1, (c - r0.recv_counter + 1) as nat, (c - r0.recv_counter) as nat),
    ensures
        r1.recv_counter as int == (if c < 0xffff_ffff_ffff_ffff {
            c + 1
        } else {
            0
        }),
        r1.skipped@.contains_key(c) <==> r0.skipped@.contains_key(c),
{
}

/// An untouched ratchet is a legitimate interrupted fast-forward: zero steps
/// taken, zero keys stored.
proof fn lemma_recv_unchanged_partial(
    ch: ChannelState,
    member_ix: u32,
    h: ChannelHeader,
    env: EnvelopeV2,
)
    ensures
        recv_checks(ch, member_ix, h, env) && h.counter
            >= ch.members@[h.member_ix as int].ratchet.recv_counter ==> ff_partial(
            ch.members@[h.member_ix as int].ratchet,
            ch.members@[h.member_ix as int].ratchet,
            h.counter - ch.members@[h.member_ix as int].ratchet.recv_counter,
        ),
{
    if recv_checks(ch, member_ix, h, env) {
        let m0 = ch.members@[h.member_ix as int].ratchet;
        if h.counter >= m0.recv_counter {
            let gap = h.counter - m0.recv_counter;
            assert(ff_partial(m0, m0, gap)) by {
                assert(ff_advance(m0, m0, 0, 0));
            }
        }
    }
}

impl ChannelState {
    /// Receives and decrypts a channel message for the member at ordinal
    /// `member_ix`.
    ///
    /// The validations run in a fixed order, each failing with its stated
    /// error, before any chain evolution: message type and member ordinal
    /// (`InvalidEnvelope`, before any gate call), the `decrypt_msg` gate on
    /// the header hash, member lookup (`InvalidEnvelope`), epoch match
    /// (`ForcedRecovery`, never a silent desync), and the binding of the
    /// envelope to the header bytes and header hash (`InvalidEnvelope`). Only
    /// then is the message dispatched on counter order: the normal chain step
    /// at the expected counter, the gated skipped-store take below it
    /// (`ReplayDetected` when no key is stored), and the gated fast-forward
    /// above it, which stores one skipped key per stepped-over counter and
    /// surfaces `SkippedStoreError` when the bounded store refuses one.
    pub fn recv_for_member<G: QkrGate>(
        &mut self,
        gate: &G,
        member_ix: u32,
        header: &ChannelHeader,
        env: &EnvelopeV2,
    ) -> (r: Result<Vec<u8>, CoreError>)
        ensures
            !(header.msg_type == crate::types::MsgType::ChannelMsg && header.member_ix
                == member_ix) ==> r == Err::<Vec<u8>, CoreError>(CoreError::InvalidEnvelope)
                && *final(self) == *old(self),
            r is Ok ==> recv_checks(*old(self), member_ix, *header, *env),
            !recv_checks(*old(self), member_ix, *header, *env) ==> r is Err && *final(self)
                == *old(self),
            final(self).epoch == old(self).epoch,
            final(self).members@.len() == old(self).members@.len(),
            forall|i: int|
                0 <= i < old(self).members@.len() && i != header.member_ix as int
                    ==> final(self).members@[i] == old(self).members@[i],
            recv_checks(*old(self), member_ix, *header, *env) ==> {
                let ix = header.member_ix as int;
                let m0 = old(self).members@[ix].ratchet;
                let m1 = final(self).members@[ix].ratchet;
                let exp = m0.recv_counter;
                let c = header.counter;
                &&& final(self).members@[ix].member_id == old(self).members@[ix].member_id
                &&& (c < exp ==> {
                    &&& (r is Ok ==> m0.skipped@.contains_key(c) && skipped_take_post(m0, m1, c)
                        && opens_to(*env, m0.skipped@[c]@, r->Ok_0@))
                    &&& (r is Err ==> recv_unchanged(m0, m1) || (m0.skipped@.contains_key(c)
                        && skipped_take_post(m0, m1, c) && r == Err::<Vec<u8>, CoreError>(
                        CoreError::InvalidEnvelope,
                    )))
                })
                &&& (c >= exp ==> {
                    &&& (r is Ok ==> ff_advance(m0, m1, (c - exp + 1) as nat, (c - exp) as nat)
                        && opens_to(*env, chain_msg_key(m1.chain_key_recv@), r->Ok_0@))
                    &&& (r is Err ==> ff_partial(m0, m1, c - exp))
                })
            },
    {
        if header.msg_type != crate::types::MsgType::ChannelMsg {
            return Err(CoreError::InvalidEnvelope);
        }
        if header.member_ix != member_ix {
            return Err(CoreError::InvalidEnvelope);
        }
        let hh = header.hash();

        // Governance gate: bind decryption to the header hash.
        let dec = match gate.gate("decrypt_msg", hh.as_slice()) {
            Ok(d) => d,
            Err(e) => {
                proof {
                    lemma_recv_unchanged_partial(*old(self), member_ix, *header, *env);
                }
                return Err(e);
            },
        };
        if !dec.allowed {
            proof {
                lemma_recv_unchanged_partial(*old(self), member_ix, *header, *env);
            }
            return Err(CoreError::GateBlocked(dec.human));
        }
        let ix = header.member_ix as usize;
        if ix >= self.members.len() {
            return Err(CoreError::InvalidEnvelope);
        }

        // Epoch mismatch: forced recovery, before any chain evolution.
        if header.epoch != self.members[ix].ratchet.epoch {
            return Err(CoreError::ForcedRecovery);
        }

        // Bind the envelope to this header: canonical bytes and header hash.
        let hb = header.to_bytes();
        if !bytes_eq(env.header.as_slice(), hb.as_slice()) {
            return Err(CoreError::InvalidEnvelope);
        }
        if !bytes_eq(env.aad.as_slice(), hh.as_slice()) {
            return Err(CoreError::InvalidEnvelope);
        }
        let member = &mut self.members[ix];
        recv_dispatch(&mut member.ratchet, gate, header, env)
    }
}

} // verus!
