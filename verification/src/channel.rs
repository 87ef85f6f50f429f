//! The channel-broadcast extension: per-member ratchets sharing a channel
//! epoch, and the channel receive path.

pub mod header;
pub mod member;
pub mod recv;
pub mod state;

pub use header::channel_header_encoding;
pub use header::channel_header_hash;
pub use header::ChannelHeader;
pub use member::ChannelMember;
pub use member::MemberId;
pub use state::ChannelState;
