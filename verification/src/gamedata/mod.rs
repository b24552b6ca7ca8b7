//! Game data records carried inside packet payloads.

pub mod basic;
pub mod stat;
