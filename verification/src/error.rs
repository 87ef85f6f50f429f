use vstd::prelude::*;

verus! {

/// Error taxonomy of the core.
///
/// `GateBlocked` carries the policy's human-readable explanation unchanged; no
/// other variant carries data. Every error is surfaced to the caller; the core
/// never swallows one, and no secret material appears in any error.
#[derive(Debug)]
pub enum CoreError {
    /// The ratchet state machine is `Locked`; recoverable only via `force_recover`.
    RatchetLocked,
    /// Epoch mismatch detected; the caller must initiate recovery.
    ForcedRecovery,
    /// Structural or authenticity failure of a message: wrong message type,
    /// wrong member index, header/envelope mismatch, empty AAD, or AEAD tag
    /// failure. Fatal for the message.
    InvalidEnvelope,
    /// Counter below the expected one with no stored skipped key for it.
    ReplayDetected,
    /// The bounded skipped-key store could not accept a key during fast-forward.
    SkippedStoreError,
    /// Policy denial; may be retried after the external policy changes.
    GateBlocked(String),
}

} // verus!
