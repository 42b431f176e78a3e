//! Core of a CAN relay: hex payload codec, ISO-TP single-frame framing,
//! the send and wait-and-collect operations, and the shared relay counters.
//!
//! The HTTP routing, command-line handling and the raw socket I/O live
//! outside this crate; this library holds the protocol logic and proves
//! its contracts.

pub mod errors;
pub mod frame;
pub mod hex_codec;
pub mod isotp;
pub mod packets;
pub mod relay_state;
pub mod send;
pub mod wait;
