//! Peer-to-peer file transfer: the signaling-driven session state machines
//! and the chunked, optionally encrypted transfer protocol that runs over
//! the established data channel.
//!
//! The library decides; it does no network, file or timer work. The caller
//! feeds in what happened (a signaling message, an event of the networking
//! layer, a chunk that was read) and carries out what comes back (actions,
//! frames to send, bytes to write).
//!
//! - [`candidates`], [`offerer`], [`answerer`]: negotiation rounds and the
//!   candidates that wait for them.
//! - [`send_session`], [`receive_session`]: the coordinators that dispatch
//!   signaling messages to sessions.
//! - [`send`], [`receive`], [`chunking`], [`transfer`]: the transfer
//!   protocol and what holds of it end to end.
//! - [`crypto`]: the framing of encrypted chunks.
//! - [`names`], [`file_info`]: file names and descriptions.
//! - [`url_text`], [`endpoint`], [`room`]: how a room is addressed.
//! - [`messages`]: the messages themselves.

pub mod answerer;
pub mod candidates;
pub mod chunking;
pub mod crypto;
pub mod endpoint;
pub mod file_info;
pub mod messages;
pub mod names;
pub mod offerer;
pub mod receive;
pub mod receive_session;
pub mod room;
pub mod send;
pub mod send_session;
pub mod transfer;
pub mod url_text;
