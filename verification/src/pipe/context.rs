//! The per-event mutable record a plugin chain works on: a cancel flag and
//! an injection queue, created fresh for every plugin-visible packet and
//! consumed by the pipe immediately after the chain returns.

use crate::packets::Packet;
use vstd::prelude::*;

verus! {

/// Context for one received packet: whether it was cancelled, and the
/// typed packets plugins asked to inject after it.
pub struct PacketContext {
    cancelled: bool,
    extra: Vec<Packet>,
}

impl PacketContext {
    /// Whether any plugin cancelled the packet.
    pub closed spec fn cancelled(self) -> bool {
        self.cancelled
    }

    /// The injected packets, in the order plugins appended them.
    pub closed spec fn extra(self) -> Seq<Packet> {
        self.extra@
    }

    /// A fresh context: not cancelled, nothing injected.
    pub fn new() -> (c: PacketContext)
        ensures
            !c.cancelled(),
            c.extra() == Seq::<Packet>::empty(),
    {
        PacketContext { cancelled: false, extra: Vec::new() }
    }

    /// Request that the current packet be cancelled, so it is not
    /// forwarded to the other side. The packet is cancelled if any plugin
    /// asks; later plugin callbacks still run.
    pub fn cancel_packet(&mut self)
        ensures
            final(self).cancelled(),
            final(self).extra() == old(self).extra(),
    {
        self.cancelled = true;
    }

    /// Queue the given packet to be sent to the side its variant belongs
    /// to. It does not pass through the plugin chain; an encoding failure
    /// is logged and the packet skipped, never fatal.
    pub fn send_packet(&mut self, packet: Packet)
        ensures
            final(self).cancelled() == old(self).cancelled(),
            final(self).extra() == old(self).extra().push(packet),
    {
        self.extra.push(packet);
    }

    /// Whether any plugin cancelled the packet.
    pub fn is_cancelled(&self) -> (b: bool)
        ensures
            b == self.cancelled(),
    {
        self.cancelled
    }

    /// Consume the context, yielding the injected packets in order.
    pub fn into_extra(self) -> (v: Vec<Packet>)
        ensures
            v@ == self.extra(),
    {
        self.extra
    }
}

impl Default for PacketContext {
    /// A fresh context: not cancelled, nothing injected.
    fn default() -> (c: PacketContext)
        ensures
            !c.cancelled(),
            c.extra() == Seq::<Packet>::empty(),
    {
        PacketContext::new()
    }
}

} // verus!
