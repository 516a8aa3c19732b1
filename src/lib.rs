//! Point-to-point packet tunnel over a peer-to-peer message channel.
//!
//! The library holds the parts of the tunnel that decide: the codec for the
//! copy-and-paste signal token, the offer/answer negotiation state machines,
//! and the relay engine that turns interface reads, channel messages and
//! connection-state changes into actions.
pub mod codec;
pub mod negotiate;
pub mod relay;
