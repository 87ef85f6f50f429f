//! Symmetric key-ratchet core for forward-secure, out-of-order-tolerant,
//! replay-resistant message transport, with a channel-broadcast extension and
//! an authenticated-encryption envelope. Every sensitive key transition is
//! mediated by a pluggable policy gate.

pub mod aead;
pub mod channel;
pub mod codec;
pub mod envelope;
pub mod error;
pub mod hash;
pub mod labels;
pub mod qkr_gate;
pub mod ratchet;
pub mod types;

pub use error::CoreError;
