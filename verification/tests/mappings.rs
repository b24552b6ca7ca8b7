//! Mappings behavior: hex key validation and the bidirectional packet ID
//! table.

use realmpipe::mappings::{Error, HexError, Mappings, PacketMappings};
use realmpipe::packets::InternalPacketId;

const KEY_HEX: &str = "000102030405060708090a0b0c0d0e0f10111213141516171819";

#[test]
fn valid_key_accepted() {
    let m = Mappings::new(KEY_HEX.to_owned(), PacketMappings::new()).expect("valid key");
    let (_a, _b) = m.get_ciphers();
}

#[test]
fn odd_length_key_rejected() {
    match Mappings::new("abc".to_owned(), PacketMappings::new()) {
        Err(Error::InvalidRC4Hex(s, HexError::OddLength)) => assert_eq!(s, "abc"),
        other => panic!("unexpected outcome: {:?}", other),
    }
}

#[test]
fn invalid_hex_rejected_with_index() {
    match Mappings::new("00zz".to_owned(), PacketMappings::new()) {
        Err(Error::InvalidRC4Hex(_, HexError::InvalidHexCharacter { c, index })) => {
            assert_eq!(c, 'z');
            assert_eq!(index, 2);
        }
        other => panic!("unexpected outcome: {:?}", other),
    }
}

#[test]
fn wrong_length_key_rejected() {
    match Mappings::new("0011".to_owned(), PacketMappings::new()) {
        Err(Error::InvalidRC4Len(_, n)) => assert_eq!(n, 2),
        other => panic!("unexpected outcome: {:?}", other),
    }
}

#[test]
fn table_maps_both_ways() {
    let mut pm = PacketMappings::new();
    assert!(pm.insert(42, InternalPacketId::Hello));
    assert!(pm.insert(7, InternalPacketId::Ping));
    let m = Mappings::new(KEY_HEX.to_owned(), pm).expect("valid key");
    assert_eq!(m.get_internal_id(42), Some(InternalPacketId::Hello));
    assert_eq!(m.get_internal_id(7), Some(InternalPacketId::Ping));
    assert_eq!(m.get_internal_id(8), None);
    assert_eq!(m.get_game_id(InternalPacketId::Hello), Some(42));
    assert_eq!(m.get_game_id(InternalPacketId::Ping), Some(7));
    assert_eq!(m.get_game_id(InternalPacketId::Pong), None);
}

#[test]
fn duplicate_wire_or_internal_id_refused() {
    let mut pm = PacketMappings::new();
    assert!(pm.insert(42, InternalPacketId::Hello));
    // same wire ID again
    assert!(!pm.insert(42, InternalPacketId::Ping));
    // same internal ID again
    assert!(!pm.insert(43, InternalPacketId::Hello));
    assert_eq!(pm.len(), 1);
    assert_eq!(pm.get_internal_id(42), Some(InternalPacketId::Hello));
}

#[test]
fn mapping_round_trip() {
    let mut pm = PacketMappings::new();
    for (w, id) in [
        (3u8, InternalPacketId::Hello),
        (9, InternalPacketId::Ping),
        (200, InternalPacketId::Update),
    ] {
        assert!(pm.insert(w, id));
    }
    for w in [3u8, 9, 200] {
        let id = pm.get_internal_id(w).expect("present");
        assert_eq!(pm.get_game_id(id), Some(w));
    }
}

#[test]
fn config_default() {
    let c = realmpipe::config::Config::default();
    assert_eq!(c.client_version, None);
    assert!(c.update_check);
}
