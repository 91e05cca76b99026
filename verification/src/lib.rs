//! Client-side logic of a real-time group chat.
//!
//! The crate keeps a roster of connected users and an ordered feed of
//! messages, and speaks a small JSON protocol with a chat server. It does no
//! I/O: inbound text is handed in, outbound text is handed back, and the
//! caller owns the transport.

pub mod json;
pub mod wire;
pub mod message;
pub mod state;
pub mod chat;

pub use chat::{Chat, FeedRow, Msg, Outcome};
pub use message::{decode_payload, encode_payload, ChatMessage};
pub use state::{avatar_url, ChatState, Roster, UserProfile};
pub use wire::{decode, encode, DecodeError, MsgTypes, WireEnvelope, WireFrame};
