//! dragon_dmc
//!
//! A verified codec and session layer for the DMC v2 protocol: a binary
//! request/response protocol used to drive stop-motion rig hardware over a
//! point-to-point serial link.
//!
//! The crate covers the framing, checksum and request/response correlation
//! layer: how a logical command becomes a well-formed byte frame, how an
//! incoming byte stream is cut back into frames and decoded, and how the
//! host pairs each outgoing request with its eventual response.

pub mod checksum;
pub mod codec;
pub mod correlator;
pub mod reassembler;
pub mod registry;
pub mod types;
