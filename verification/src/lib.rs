//! PTCP: a small datagram protocol.
//!
//! The crate holds the binary codec of the wire frame (packet, body and
//! payload) and the per-endpoint session that stamps outgoing packets and
//! observes incoming ones.  Every function is verified against a
//! mathematical model of the wire format over `Seq<u8>`.
//!
//! Data flows outwards through [`PTCPSession::send`] and
//! [`PTCPPacket::serialize`], and inwards through [`PTCPPacket::parse`] and
//! [`PTCPSession::recv`].  The socket that carries the bytes is the caller's.

pub mod body;
pub mod error;
pub mod event;
pub mod packet;
pub mod payload;
pub mod session;
pub mod text;
pub mod wire;

pub use crate::body::PTCPBody;
pub use crate::error::FormatError;
pub use crate::event::PTCPEvent;
pub use crate::packet::PTCPPacket;
pub use crate::payload::PTCPPayload;
pub use crate::session::PTCPSession;
pub use crate::session::SessionState;
