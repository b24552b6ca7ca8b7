//! The per-relay decision core: which side a packet came from, and how one
//! incoming packet plus the plugin chain's verdict becomes the ordered
//! batch of raw packets to forward. The I/O around it — accepting,
//! connecting, merging the two sockets fairly, and writing each batch item
//! to the peer of its side — is the runtime's job; within a direction it
//! must feed packets here in wire-reception order and write batches out in
//! order.

use super::context::PacketContext;
use crate::mappings::{lookup_game, Mappings};
use crate::packets::{
    enc_packet, is_server_id, packet_model_id, valid_packet, InternalPacketId, Packet, PacketModel,
};
use crate::proxy::raw::RawPacket;
use crate::serverlist::{lower_of, lowercased, sl_lookup, ServerAddr, ServerList, GAME_PORT};
use vstd::prelude::*;

verus! {

/// Which side of the relay a packet was sent from.
#[derive(Debug, PartialEq, Eq, Structural, Hash, Clone, Copy)]
pub enum PacketSide {
    /// The packet was sent by the server.
    Server,
    /// The packet was sent by the client.
    Client,
}

/// The side a packet variant belongs to: the side that sends it, which is
/// the side the pipe attributes to an injected packet of that variant.
pub open spec fn side_of(m: PacketModel) -> PacketSide {
    if is_server_id(packet_model_id(m)) {
        PacketSide::Server
    } else {
        PacketSide::Client
    }
}

/// The raw packets that the injection queue `extra` adds to a batch, in
/// order: each packet that has a wire ID and encodes is routed to the side
/// of its own variant; the rest are skipped.
pub open spec fn injected_spec(table: Seq<(u8, InternalPacketId)>, extra: Seq<Packet>) -> Seq<
    (PacketSide, Seq<u8>),
>
    decreases extra.len(),
{
    if extra.len() == 0 {
        Seq::empty()
    } else {
        let m = extra[0].model();
        let rest = injected_spec(table, extra.drop_first());
        match lookup_game(table, packet_model_id(m)) {
            None => rest,
            Some(g) => if valid_packet(m) {
                seq![(side_of(m), seq![g] + enc_packet(m))] + rest
            } else {
                rest
            },
        }
    }
}

/// The ordered batch produced for one incoming packet: the original first,
/// on its own side, unless cancelled; then the injections in the order
/// they were queued.
pub open spec fn batch_spec(
    table: Seq<(u8, InternalPacketId)>,
    side: PacketSide,
    raw: Seq<u8>,
    cancelled: bool,
    extra: Seq<Packet>,
) -> Seq<(PacketSide, Seq<u8>)> {
    (if cancelled {
        Seq::<(PacketSide, Seq<u8>)>::empty()
    } else {
        seq![(side, raw)]
    }) + injected_spec(table, extra)
}

/// The sides and bytes of a batch.
pub open spec fn batch_models(batch: Seq<(PacketSide, RawPacket)>) -> Seq<(PacketSide, Seq<u8>)> {
    Seq::new(batch.len(), |i: int| (batch[i].0, batch[i].1@))
}

/// An error constructing a pipe.
#[derive(Debug, PartialEq, Clone)]
pub enum BuildError {
    /// The server list is empty.
    EmptyServerList,
    /// The default server, lowercased, is not present in the list.
    UnknownDefaultServer(String),
}

/// One relay's coordination state: the shared mappings, the server
/// directory, and the default server every accepted client is relayed to.
pub struct Pipe {
    mappings: Mappings,
    servers: ServerList,
    default_server: String,
}

impl Pipe {
    #[verifier::type_invariant]
    spec fn inv(self) -> bool {
        sl_lookup(self.servers@, self.default_server@) matches Some(_)
    }

    /// The mapping table this pipe encodes injections against.
    pub closed spec fn table(self) -> Seq<(u8, InternalPacketId)> {
        self.mappings.table()
    }

    /// The directory of servers.
    pub closed spec fn servers_view(self) -> Seq<(Seq<char>, Seq<char>)> {
        self.servers@
    }

    /// The lowercased name of the default server.
    pub closed spec fn default_name(self) -> Seq<char> {
        self.default_server@
    }

    /// Build a pipe. The server list must hold at least one server, and
    /// the default name, lowercased, must be present in it; otherwise the
    /// pipe is refused.
    pub fn new(mappings: Mappings, servers: ServerList, default_server: &str) -> (res: Result<
        Pipe,
        BuildError,
    >)
        ensures
            (res matches Ok(_)) <==> (sl_lookup(servers@, lower_of(default_server@)) matches Some(
                _,
            ) && servers@.len() > 0),
            res matches Ok(p) ==> p.table() == mappings.table() && p.servers_view() == servers@
                && p.default_name() == lower_of(default_server@),
            res matches Err(e) ==> (if servers@.len() == 0 {
                e == BuildError::EmptyServerList
            } else {
                e matches BuildError::UnknownDefaultServer(s) && s@ == lower_of(default_server@)
            }),
    {
        let default = lowercased(default_server);
        if servers.len() == 0 {
            return Err(BuildError::EmptyServerList);
        }
        match servers.get_ip(default.as_str()) {
            Some(_) => Ok(Pipe { mappings, servers, default_server: default }),
            None => Err(BuildError::UnknownDefaultServer(default)),
        }
    }

    /// The mappings shared by the relay's two codecs.
    pub fn get_mappings(&self) -> (m: &Mappings)
        ensures
            m.table() == self.table(),
    {
        &self.mappings
    }

    /// The socket address of the default server. The pipe's invariant
    /// guarantees the default is present, so this is total.
    pub fn get_default_server(&self) -> (a: ServerAddr)
        ensures
            sl_lookup(self.servers_view(), self.default_name()) == Some(a.ip@),
            a.port == GAME_PORT,
    {
        proof {
            use_type_invariant(self);
        }
        match self.servers.get_socket(self.default_server.as_str()) {
            Some(a) => a,
            None => ServerAddr { ip: String::new(), port: GAME_PORT },
        }
    }

    /// Turn one incoming packet and the plugin chain's verdict into the
    /// ordered batch to forward: the original packet first, on its own
    /// side, unless any plugin cancelled it; then each injected packet
    /// that has a wire ID and encodes, as a raw packet routed to the side
    /// of its own variant — never by which direction the triggering packet
    /// came from. Injections that are unmapped or do not encode are
    /// skipped, never fatal.
    #[verifier::loop_isolation(false)]
    pub fn process_packet(&self, side: PacketSide, raw: RawPacket, ctx: PacketContext) -> (batch:
        Vec<(PacketSide, RawPacket)>)
        ensures
            batch_models(batch@) == batch_spec(
                self.table(),
                side,
                raw@,
                ctx.cancelled(),
                ctx.extra(),
            ),
    {
        let ghost table = self.table();
        let ghost extra0 = ctx.extra();
        let mut batch: Vec<(PacketSide, RawPacket)> = Vec::new();
        let cancelled = ctx.is_cancelled();
        if !cancelled {
            batch.push((side, raw));
        }
        let ghost head = batch_models(batch@);
        proof {
            if cancelled {
                assert(head =~= Seq::<(PacketSide, Seq<u8>)>::empty());
            } else {
                assert(head =~= seq![(side, raw@)]);
            }
        }
        let mut extra = ctx.into_extra();
        proof {
            assert(batch_models(batch@) + injected_spec(table, extra@) =~= head + injected_spec(
                table,
                extra0,
            ));
        }
        while extra.len() > 0
            invariant
                batch_models(batch@) + injected_spec(table, extra@) == head + injected_spec(
                    table,
                    extra0,
                ),
            decreases extra@.len(),
        {
            let ghost pre = extra@;
            let ghost batch_pre = batch@;
            let pkt = extra.remove(0);
            proof {
                assert(pkt == pre[0]);
                assert(extra@ =~= pre.drop_first());
            }
            let id = pkt.get_internal_id();
            let s = if id.is_server() {
                PacketSide::Server
            } else {
                PacketSide::Client
            };
            match RawPacket::from_packet(pkt, &self.mappings) {
                Ok(r) => {
                    batch.push((s, r));
                    proof {
                        let elem = (side_of(pkt.model()), r@);
                        assert(injected_spec(table, pre) == seq![elem] + injected_spec(
                            table,
                            extra@,
                        ));
                        assert(batch_models(batch@) =~= batch_models(batch_pre) + seq![elem]);
                        assert((batch_models(batch_pre) + seq![elem]) + injected_spec(table, extra@)
                            =~= batch_models(batch_pre) + (seq![elem] + injected_spec(
                            table,
                            extra@,
                        )));
                    }
                },
                Err(_) => {
                    proof {
                        assert(injected_spec(table, pre) == injected_spec(table, extra@));
                    }
                },
            }
        }
        proof {
            assert(injected_spec(table, extra@) =~= Seq::<(PacketSide, Seq<u8>)>::empty());
            assert(batch_models(batch@) + injected_spec(table, extra@) =~= batch_models(batch@));
        }
        batch
    }
}

} // verus!
