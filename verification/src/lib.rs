//! Endpoint runtime of a peer-to-peer remote-desktop session: the sealed,
//! length-delimited transport, the binary message format, the call
//! multiplexer, parameter negotiation and the bookkeeping around them.
//!
//! Every function is synchronous and takes plain values. Sockets, timers and
//! threads belong to the caller, which feeds events in and carries out the
//! actions that come back.

pub mod bridge;
pub mod capture;
pub mod codec;
pub mod crypto;
pub mod endian;
pub mod endpoint;
pub mod file_transfer;
pub mod frame;
pub mod handshake;
pub mod message;
pub mod negotiation;
pub mod negotiator;
pub mod nonce;
pub mod queue;
pub mod registry;
pub mod table;
pub mod transport;
pub mod video_decoder;
