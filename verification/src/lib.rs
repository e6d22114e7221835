//! Client-side SOCKS proxy negotiation engine.
//!
//! The handshake defined by RFC 1928 (SOCKS5), RFC 1929 (username/password
//! sub-negotiation) and the historical SOCKS4/4a protocol is driven as a pure
//! state machine over byte frames: the caller performs the reads and writes on
//! its own transport and feeds the bytes through [`engine::Handshake::step`].
//! Every frame that the engine emits and every check it performs on a reply is
//! specified and verified against the wire format.

pub mod addr;
pub mod auth;
pub mod codec;
pub mod dialer;
pub mod engine;
pub mod error;
pub mod parse;
pub mod session;
pub mod socks4;

pub use addr::IpAddress;
pub use addr::SocketAddress;
pub use addr::TargetAddr;
pub use auth::Authentication;
pub use codec::Command;
pub use engine::Handshake;
pub use engine::Step;
pub use error::Error;
pub use error::InvalidAuthReason;
pub use error::InvalidTargetReason;
pub use session::Compat;
pub use session::Socks4Listener;
pub use session::Socks4Stream;
pub use session::Socks5Listener;
pub use session::Socks5Stream;
pub use socks4::Socks4Handshake;
