//! The intermediary representation of packets: a raw packet is a byte
//! buffer whose first byte is the wire message ID and whose remaining bytes
//! are the decrypted payload. Always non-empty. A raw packet can be relayed
//! without ever being parsed, and converted to or from a typed `Packet`
//! against a given set of mappings.

use crate::adapters::{Error as AdapterError, NetworkAdapter, Reader};
use crate::mappings::{lookup_game, lookup_internal, pm_wf, Mappings};
use crate::packets::{
    dec_packet, enc_packet, lemma_packet_dec_enc, packet_model_id, valid_packet, InternalPacketId,
    Packet, PacketModel,
};
use vstd::prelude::*;

verus! {

/// An error converting a `RawPacket` to or from a `Packet`.
#[derive(Debug, PartialEq, Clone)]
pub enum Error {
    /// There is no mapping for the wire packet ID to an internal packet ID.
    UnmappedGameId(u8),
    /// There is no mapping for the internal packet ID to a wire packet ID.
    UnmappedInternalId(InternalPacketId),
    /// The field adapters failed to convert the packet.
    AdapterError(AdapterError),
}

/// A packet that has been received and decrypted but not parsed: the wire
/// ID byte followed by the decrypted payload.
#[derive(Debug)]
pub struct RawPacket {
    bytes: Vec<u8>,
}

impl View for RawPacket {
    type V = Seq<u8>;

    closed spec fn view(&self) -> Seq<u8> {
        self.bytes@
    }
}

impl RawPacket {
    #[verifier::type_invariant]
    spec fn inv(self) -> bool {
        self.bytes@.len() >= 1
    }

    /// Wrap the given bytes: the wire ID byte followed by the decrypted
    /// payload, so at least one byte.
    pub fn new(bytes: Vec<u8>) -> (r: RawPacket)
        requires
            bytes@.len() >= 1,
        ensures
            r@ == bytes@,
    {
        RawPacket { bytes }
    }

    /// The wire ID representing this packet's type.
    pub fn game_id(&self) -> (id: u8)
        ensures
            id == self@[0],
    {
        proof {
            use_type_invariant(self);
        }
        self.bytes[0]
    }

    /// A copy of the decrypted payload of this packet: everything after
    /// the wire ID byte.
    pub fn contents(&self) -> (c: Vec<u8>)
        ensures
            c@ == self@.skip(1),
    {
        proof {
            use_type_invariant(self);
        }
        let c = vstd::slice::slice_to_vec(
            vstd::slice::slice_subrange(self.bytes.as_slice(), 1, self.bytes.len()),
        );
        proof {
            assert(c@ =~= self@.skip(1));
        }
        c
    }

    /// The number of bytes in this packet, the wire ID byte included.
    pub fn len(&self) -> (n: usize)
        ensures
            n == self@.len(),
            n >= 1,
    {
        proof {
            use_type_invariant(self);
        }
        self.bytes.len()
    }

    /// Unwrap the underlying bytes: the wire ID byte, then the payload.
    pub fn into_bytes(self) -> (v: Vec<u8>)
        ensures
            v@ == self@,
            v@.len() >= 1,
    {
        proof {
            use_type_invariant(&self);
        }
        self.bytes
    }

    /// Copy this packet. A raw packet is cheap and freely duplicable.
    pub fn duplicate(&self) -> (r: RawPacket)
        ensures
            r@ == self@,
    {
        proof {
            use_type_invariant(self);
        }
        RawPacket { bytes: self.bytes.clone() }
    }

    /// Parse this raw packet into a typed packet using the given mappings:
    /// the wire ID picks the variant, and the payload is decoded as its
    /// declared fields.
    pub fn to_packet(&self, mappings: &Mappings) -> (res: Result<Packet, Error>)
        ensures
            match lookup_internal(mappings.table(), self@[0]) {
                None => res == Err::<Packet, Error>(Error::UnmappedGameId(self@[0])),
                Some(id) => match dec_packet(id, self@.skip(1)) {
                    Ok((m, u)) => res matches Ok(p) && p.model() == m,
                    Err(e) => res == Err::<Packet, Error>(Error::AdapterError(e)),
                },
            },
    {
        proof {
            use_type_invariant(self);
        }
        let game_id = self.game_id();
        match mappings.get_internal_id(game_id) {
            None => Err(Error::UnmappedGameId(game_id)),
            Some(id) => {
                let mut reader = Reader::new(self.contents());
                match Packet::from_bytes(id, &mut reader) {
                    Ok(p) => Ok(p),
                    Err(e) => Err(Error::AdapterError(e)),
                }
            },
        }
    }

    /// Encode the given typed packet into a raw packet using the given
    /// mappings: the variant's wire ID byte, then the encoded payload.
    pub fn from_packet(packet: Packet, mappings: &Mappings) -> (res: Result<RawPacket, Error>)
        ensures
            ({
                let m = packet.model();
                let id = packet_model_id(m);
                match lookup_game(mappings.table(), id) {
                    None => res == Err::<RawPacket, Error>(Error::UnmappedInternalId(id)),
                    Some(g) => if valid_packet(m) {
                        res matches Ok(r) && r@ == seq![g] + enc_packet(m)
                    } else {
                        res matches Err(e) && e matches Error::AdapterError(
                            AdapterError::InvalidData(_),
                        )
                    },
                }
            }),
    {
        let internal_id = packet.get_internal_id();
        match mappings.get_game_id(internal_id) {
            None => Err(Error::UnmappedInternalId(internal_id)),
            Some(game_id) => {
                let mut buf: Vec<u8> = Vec::new();
                buf.push(game_id);
                match packet.to_bytes(&mut buf) {
                    Ok(()) => {
                        proof {
                            assert(buf@ =~= seq![game_id] + enc_packet(packet.model()));
                        }
                        Ok(RawPacket::new(buf))
                    },
                    Err(e) => Err(Error::AdapterError(e)),
                }
            },
        }
    }
}

/// Law: for a well-formed mapping table, a typed packet encoded to a raw
/// packet parses back to the same packet model: the raw packet's wire ID
/// maps to the packet's own variant, and its payload decodes to the
/// packet's model, consuming the whole payload.
pub proof fn lemma_raw_round_trip(table: Seq<(u8, InternalPacketId)>, m: PacketModel)
    requires
        pm_wf(table),
        valid_packet(m),
        lookup_game(table, packet_model_id(m)) matches Some(_),
    ensures
        ({
            let g = lookup_game(table, packet_model_id(m))->Some_0;
            let b = seq![g] + enc_packet(m);
            &&& lookup_internal(table, b[0]) == Some(packet_model_id(m))
            &&& dec_packet(packet_model_id(m), b.skip(1)) == Ok::<(PacketModel, int), AdapterError>(
                (m, enc_packet(m).len() as int),
            )
        }),
{
    let g = lookup_game(table, packet_model_id(m))->Some_0;
    let b = seq![g] + enc_packet(m);
    crate::mappings::lemma_lookup_pair_rev(table, packet_model_id(m));
    assert(b[0] == g);
    assert(b.skip(1) =~= enc_packet(m));
    lemma_packet_dec_enc(m);
}

} // verus!
