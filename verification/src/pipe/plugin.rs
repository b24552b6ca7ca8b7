//! The per-relay plugin callback interface. A plugin state is created at
//! relay start, sees every packet from both directions, and may read the
//! raw ID, trigger the lazy decode, cancel the packet, or queue injections.
//! Callbacks must not block the relay; asynchronous work belongs elsewhere.

use super::autopacket::AutoPacket;
use super::context::PacketContext;
use vstd::prelude::*;

verus! {

/// One relay's instance of a plugin.
pub trait PluginState {
    /// Handle an intercepted packet: inspect `packet` (lazily decoding it
    /// at most once) and record cancellation or injections in `ctx`.
    fn on_packet(&mut self, packet: &mut AutoPacket<'_>, ctx: &mut PacketContext);
}

} // verus!
