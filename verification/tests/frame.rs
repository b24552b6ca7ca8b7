//! Frame codec behavior: framing errors, minimum frames, and the
//! round trip through a complementary codec pair.

use realmpipe::mappings::{Mappings, PacketMappings};
use realmpipe::proxy::codec::{Codec, CodecError};
use realmpipe::proxy::raw::RawPacket;

const KEY_HEX: &str = "000102030405060708090a0b0c0d0e0f10111213141516171819";

fn mappings() -> Mappings {
    Mappings::new(KEY_HEX.to_owned(), PacketMappings::new()).expect("valid mappings")
}

#[test]
fn frame_length_four_is_framing_error() {
    let m = mappings();
    let mut codec = Codec::new_client(&m);
    let mut buf = vec![0, 0, 0, 4];
    match codec.decode(&mut buf) {
        Err(CodecError::Framing(n)) => assert_eq!(n, 4),
        other => panic!("unexpected outcome: {:?}", other),
    }
}

#[test]
fn frame_length_five_with_empty_payload_is_id_only() {
    let m = mappings();
    let mut codec = Codec::new_client(&m);
    let mut buf = vec![0, 0, 0, 5, 42];
    let raw = codec.decode(&mut buf).expect("decode error").expect("full frame");
    assert_eq!(raw.game_id(), 42);
    assert_eq!(raw.contents(), Vec::<u8>::new());
    assert_eq!(raw.len(), 1);
    assert!(buf.is_empty());
}

#[test]
fn partial_frames_need_more() {
    let m = mappings();
    let mut codec = Codec::new_client(&m);
    let mut buf = vec![0, 0, 0];
    assert!(codec.decode(&mut buf).expect("no error").is_none());
    assert_eq!(buf, vec![0, 0, 0]);
    let mut buf = vec![0, 0, 0, 9, 1, 2, 3];
    assert!(codec.decode(&mut buf).expect("no error").is_none());
    assert_eq!(buf, vec![0, 0, 0, 9, 1, 2, 3]);
}

#[test]
fn encode_then_decode_with_complementary_pair() {
    let m = mappings();
    // the client-side encoder's send keystream matches the server-side
    // decoder's receive keystream
    let mut enc = Codec::new_client(&m);
    let mut dec = Codec::new_server(&m);
    let payload = vec![9, 8, 7, 6, 5];
    let mut raw_bytes = vec![42u8];
    raw_bytes.extend_from_slice(&payload);
    let raw = RawPacket::new(raw_bytes.clone());

    let mut wire = Vec::new();
    enc.encode(raw, &mut wire).expect("encode error");
    // the wire-level total length is 5 + payload length
    assert_eq!(wire.len(), 4 + raw_bytes.len());
    assert_eq!(&wire[0..4], &[0, 0, 0, (4 + raw_bytes.len()) as u8]);
    assert_eq!(wire[4], 42);
    // the payload is enciphered on the wire
    assert_ne!(&wire[5..], &payload[..]);

    let back = dec.decode(&mut wire).expect("decode error").expect("full frame");
    assert_eq!(back.game_id(), 42);
    assert_eq!(back.contents(), payload);
    assert!(wire.is_empty());
}

#[test]
fn two_frames_in_sequence_keep_cipher_state() {
    let m = mappings();
    let mut enc = Codec::new_client(&m);
    let mut dec = Codec::new_server(&m);
    let mut wire = Vec::new();
    enc.encode(RawPacket::new(vec![1, 10, 11]), &mut wire).expect("encode error");
    enc.encode(RawPacket::new(vec![2, 20, 21, 22]), &mut wire).expect("encode error");
    let a = dec.decode(&mut wire).expect("decode error").expect("frame");
    let b = dec.decode(&mut wire).expect("decode error").expect("frame");
    assert_eq!(a.game_id(), 1);
    assert_eq!(a.contents(), vec![10, 11]);
    assert_eq!(b.game_id(), 2);
    assert_eq!(b.contents(), vec![20, 21, 22]);
}
