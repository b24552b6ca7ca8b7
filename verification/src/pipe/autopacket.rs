//! The lazy-decode handle a plugin chain receives: a raw packet bound to
//! the shared mappings, whose typed form is computed at most once. A
//! successful decode is cached; a decode failure is remembered and never
//! retried, and the raw packet is still forwarded.

use crate::mappings::{lookup_internal, Mappings};
use crate::packets::{dec_packet, InternalPacketId, Packet, PacketModel};
use crate::proxy::raw::{Error as RawError, RawPacket};
use vstd::prelude::*;

verus! {

/// The typed form of a raw packet against a mapping table, if it has one:
/// the wire ID must be mapped and the payload must decode as the mapped
/// variant.
pub open spec fn lazy_decode(table: Seq<(u8, InternalPacketId)>, raw: Seq<u8>) -> Option<
    PacketModel,
> {
    match lookup_internal(table, raw[0]) {
        None => None,
        Some(id) => match dec_packet(id, raw.skip(1)) {
            Ok((m, u)) => Some(m),
            Err(e) => None,
        },
    }
}

/// A raw packet that can be converted to a typed packet on demand. The
/// decode runs at most once: its outcome, success or failure, is cached.
pub struct AutoPacket<'a> {
    raw: RawPacket,
    mappings: &'a Mappings,
    decoded: Option<Result<Packet, RawError>>,
}

impl<'a> AutoPacket<'a> {
    #[verifier::type_invariant]
    spec fn inv(self) -> bool {
        match self.decoded {
            None => true,
            Some(Ok(p)) => lazy_decode((*self.mappings).table(), self.raw@) == Some(p.model()),
            Some(Err(_)) => lazy_decode((*self.mappings).table(), self.raw@) matches None,
        }
    }

    /// The bytes of the underlying raw packet.
    pub closed spec fn raw_bytes(self) -> Seq<u8> {
        self.raw@
    }

    /// The mappings this handle decodes against.
    pub closed spec fn spec_mappings(self) -> Mappings {
        *self.mappings
    }

    /// Whether the decode has already been attempted.
    pub closed spec fn attempted(self) -> bool {
        self.decoded matches Some(_)
    }

    /// Create a new handle wrapping the given raw packet; nothing is
    /// decoded yet.
    pub fn new(raw: RawPacket, mappings: &'a Mappings) -> (p: AutoPacket<'a>)
        ensures
            p.raw_bytes() == raw@,
            p.spec_mappings() == *mappings,
            !p.attempted(),
    {
        AutoPacket { raw, mappings, decoded: None }
    }

    /// The underlying raw packet.
    pub fn get_raw(&self) -> (r: &RawPacket)
        ensures
            r@ == self.raw_bytes(),
    {
        &self.raw
    }

    /// Consume this handle and return the raw packet.
    pub fn into_raw(self) -> (r: RawPacket)
        ensures
            r@ == self.raw_bytes(),
    {
        self.raw
    }

    /// The mappings this handle decodes against.
    pub fn get_mappings(&self) -> (m: &'a Mappings)
        ensures
            *m == self.spec_mappings(),
    {
        self.mappings
    }

    /// The typed form of this packet, decoding it on the first call. The
    /// outcome is cached: once attempted, later calls return the cached
    /// result without decoding again. `None` when the wire ID is unmapped
    /// or the payload does not decode as the mapped variant.
    pub fn get_any(&mut self) -> (res: Option<&Packet>)
        ensures
            final(self).raw_bytes() == old(self).raw_bytes(),
            final(self).spec_mappings() == old(self).spec_mappings(),
            final(self).attempted() || res matches None,
            match lazy_decode(old(self).spec_mappings().table(), old(self).raw_bytes()) {
                Some(m) => res matches Some(p) && p.model() == m,
                None => res matches None,
            },
    {
        proof {
            use_type_invariant(&*self);
        }
        if self.decoded.is_none() {
            let id = self.mappings.get_internal_id(self.raw.game_id());
            if id.is_some() {
                let outcome = self.raw.to_packet(self.mappings);
                self.decoded = Some(outcome);
            } else {
                return None;
            }
        }
        match &self.decoded {
            Some(Ok(p)) => Some(p),
            Some(Err(_)) => None,
            None => None,
        }
    }
}

} // verus!
