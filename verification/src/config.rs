//! The persistent configuration record. Serialization of it is the
//! runtime's concern; the record itself is plain data.

use vstd::prelude::*;

verus! {

/// Persistent configuration: the game client version in use, and whether
/// to check for client updates automatically.
#[derive(Debug, PartialEq, Clone)]
pub struct Config {
    /// The currently-used client version, when one is known.
    pub client_version: Option<String>,
    /// Whether to check for game client updates automatically.
    pub update_check: bool,
}

impl Default for Config {
    /// The default configuration: no known client version, update checks
    /// on.
    fn default() -> (c: Config)
        ensures
            c.client_version matches None,
            c.update_check,
    {
        Config { client_version: None, update_check: true }
    }
}

} // verus!
