//! Verified core of a relay for a length-framed, stream-cipher-encrypted
//! client/server game protocol: field and frame codecs, the message catalog,
//! the wire/internal identifier mappings, the policy preamble, the server
//! directory, and the per-packet pipe logic.

pub mod adapters;
pub mod config;
pub mod gamedata;
pub mod mappings;
pub mod num_bytes;
pub mod packets;
pub mod pipe;
pub mod proxy;
pub mod rc4;
pub mod serverlist;
