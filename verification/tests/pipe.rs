//! Pipe behavior: the packet context, the lazy-decode handle, the policy
//! preamble, and one end-to-end relay step with a cancelling, injecting
//! plugin.

use realmpipe::mappings::{Mappings, PacketMappings};
use realmpipe::packets::{client, InternalPacketId, Packet};
use realmpipe::pipe::autopacket::AutoPacket;
use realmpipe::pipe::context::PacketContext;
use realmpipe::pipe::pipe::{PacketSide, Pipe};
use realmpipe::pipe::plugin::PluginState;
use realmpipe::proxy::codec::Codec;
use realmpipe::proxy::policy::{classify_preamble, policy_file, policy_request_bytes, PolicyDecision};
use realmpipe::proxy::raw::RawPacket;
use realmpipe::serverlist::ServerList;

const KEY_HEX: &str = "000102030405060708090a0b0c0d0e0f10111213141516171819";

fn mappings() -> Mappings {
    let mut pm = PacketMappings::new();
    assert!(pm.insert(42, InternalPacketId::Teleport));
    assert!(pm.insert(5, InternalPacketId::Pong));
    assert!(pm.insert(9, InternalPacketId::GotoAck));
    Mappings::new(KEY_HEX.to_owned(), pm).expect("valid mappings")
}

fn server_list() -> ServerList {
    ServerList::new(&vec![("USEast".to_string(), "127.0.0.1".to_string())])
}

#[test]
fn context_defaults_and_updates() {
    let mut ctx = PacketContext::new();
    assert!(!ctx.is_cancelled());
    ctx.send_packet(Packet::Pong(client::Pong { serial: 1, time: 2 }));
    ctx.cancel_packet();
    assert!(ctx.is_cancelled());
    let extra = ctx.into_extra();
    assert_eq!(extra.len(), 1);
}

#[test]
fn auto_packet_decodes_at_most_once() {
    let m = mappings();
    let raw = RawPacket::new(vec![42, 0, 0, 0, 7]);
    let mut auto = AutoPacket::new(raw, &m);
    assert_eq!(auto.get_raw().game_id(), 42);
    {
        let p = auto.get_any().expect("decodes");
        assert_eq!(*p, Packet::Teleport(client::Teleport { object_id: 7 }));
    }
    {
        let p = auto.get_any().expect("still decodes");
        assert_eq!(*p, Packet::Teleport(client::Teleport { object_id: 7 }));
    }
    let raw = auto.into_raw();
    assert_eq!(raw.game_id(), 42);
}

#[test]
fn auto_packet_unmapped_and_undecodable() {
    let m = mappings();
    // unmapped wire ID
    let mut auto = AutoPacket::new(RawPacket::new(vec![250, 1, 2]), &m);
    assert!(auto.get_any().is_none());
    // mapped wire ID with a short payload
    let mut auto = AutoPacket::new(RawPacket::new(vec![42, 1, 2]), &m);
    assert!(auto.get_any().is_none());
    assert!(auto.get_any().is_none());
}

#[test]
fn policy_preamble_classification() {
    let req = policy_request_bytes();
    assert_eq!(classify_preamble(&req), PolicyDecision::PolicyRequest);
    assert_eq!(
        classify_preamble(&req[..5].to_vec()),
        PolicyDecision::NeedMore
    );
    assert_eq!(classify_preamble(&Vec::new()), PolicyDecision::NeedMore);
    assert_eq!(
        classify_preamble(&vec![0, 0, 0, 9]),
        PolicyDecision::NotPolicy
    );
    let mut long = req.clone();
    long.push(0);
    assert_eq!(classify_preamble(&long), PolicyDecision::NotPolicy);
    assert!(policy_file().contains("cross-domain-policy"));
}

/// Cancels every packet with wire ID 42 and injects one synthetic reply.
struct CancelAndReply {
    seen: usize,
}

impl PluginState for CancelAndReply {
    fn on_packet(&mut self, packet: &mut AutoPacket<'_>, ctx: &mut PacketContext) {
        self.seen += 1;
        if packet.get_raw().game_id() == 42 {
            // inspect the typed form, then cancel and reply
            let typed = packet.get_any().expect("decodes").clone();
            assert!(matches!(typed, Packet::Teleport(_)));
            ctx.cancel_packet();
            ctx.send_packet(Packet::GotoAck(client::GotoAck { time: 777 }));
        }
    }
}

#[test]
fn pipe_end_to_end() {
    let m = mappings();
    let pipe = Pipe::new(mappings(), server_list(), "USEast").expect("valid pipe");
    assert_eq!(pipe.get_default_server().ip, "127.0.0.1");
    assert_eq!(pipe.get_default_server().port, 2050);

    // the game client's own codec is the complement of the proxy's
    // client-facing codec
    let mut client_sim = Codec::new_server(&m);
    let mut proxy_client_side = Codec::new_client(&m);
    let mut proxy_server_side = Codec::new_server(&m);
    let mut server_sim = Codec::new_client(&m);

    // the client sends a packet with wire ID 42, then one with wire ID 5
    let mut wire = Vec::new();
    client_sim
        .encode(RawPacket::new(vec![42, 0, 0, 0, 7]), &mut wire)
        .expect("encode");
    client_sim
        .encode(RawPacket::new(vec![5, 0, 0, 0, 1, 0, 0, 0, 2]), &mut wire)
        .expect("encode");

    let mut plugin = CancelAndReply { seen: 0 };
    let mut to_server: Vec<u8> = Vec::new();
    let mut to_client: Vec<u8> = Vec::new();

    while let Some(raw) = proxy_client_side.decode(&mut wire).expect("decode") {
        let mut auto = AutoPacket::new(raw, &m);
        let mut ctx = PacketContext::new();
        plugin.on_packet(&mut auto, &mut ctx);
        let batch = pipe.process_packet(PacketSide::Client, auto.into_raw(), ctx);
        for (side, out) in batch {
            match side {
                // client-originated traffic goes to the server socket
                PacketSide::Client => proxy_server_side
                    .encode(out, &mut to_server)
                    .expect("encode"),
                PacketSide::Server => proxy_client_side
                    .encode(out, &mut to_client)
                    .expect("encode"),
            }
        }
    }

    assert_eq!(plugin.seen, 2);
    // the client receives nothing
    assert!(to_client.is_empty());
    // the server receives the injected reply, then the forwarded packet
    let first = server_sim
        .decode(&mut to_server)
        .expect("decode")
        .expect("frame");
    assert_eq!(first.game_id(), 9);
    assert_eq!(first.contents(), vec![0, 0, 3, 9]);
    let second = server_sim
        .decode(&mut to_server)
        .expect("decode")
        .expect("frame");
    assert_eq!(second.game_id(), 5);
    assert_eq!(second.contents(), vec![0, 0, 0, 1, 0, 0, 0, 2]);
    assert!(to_server.is_empty());
}
