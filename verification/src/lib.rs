//! Verified core of a minimal SNTP (RFC 4330) client.
//!
//! The crate holds the protocol itself: how a request is laid out, which
//! replies are accepted, how the transmit timestamp is decoded and how one
//! exchange proceeds. It performs no I/O. A driver owns the datagram socket,
//! carries out the [`Action`]s that [`SntpRequest::step`] hands it and reports
//! what happened as [`Event`]s.

pub mod client;
pub mod error;
pub mod packet;
pub mod timestamp;

pub use client::Action;
pub use client::ClientState;
pub use client::Event;
pub use client::SntpRequest;
pub use client::Timeout;
pub use client::DEFAULT_TIMEOUT_SECS;
pub use client::POOL_NTP_ADDR;
pub use error::Direction;
pub use error::ProtocolError;
pub use error::SntpError;
pub use packet::build_request;
pub use packet::parse_reply;
pub use packet::read_be_u32;
pub use packet::Reply;
pub use packet::PACKET_SIZE;
pub use timestamp::Timestamp;
pub use timestamp::NTP_UNIX_OFFSET;
