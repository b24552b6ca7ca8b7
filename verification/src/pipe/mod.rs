//! The per-relay pipe logic: the context handed to plugin callbacks, the
//! lazy-decode handle over a raw packet, and the decision that turns one
//! incoming packet plus the plugins' verdict into the ordered batch to
//! forward.

pub mod autopacket;
pub mod context;
pub mod error;
pub mod pipe;
pub mod plugin;
