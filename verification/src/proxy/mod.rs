//! The wire protocol layer: length-prefixed, payload-enciphered frames
//! carrying raw packets, and the cleartext policy preamble that may precede
//! any framing.

pub mod codec;
pub mod policy;
pub mod raw;
