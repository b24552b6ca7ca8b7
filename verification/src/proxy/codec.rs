//! The frame codec: length-prefixed, payload-enciphered frame boundaries.
//! Each wire frame is a big-endian 32-bit total length (its own four bytes
//! included, so at least five), one cleartext wire ID byte, and the
//! enciphered payload. The keystreams advance only over payload bytes:
//! never the length header, never the ID byte.

use super::raw::RawPacket;
use crate::mappings::{Mappings, KEY_LEN};
use crate::num_bytes::{
    be_bytes, be_value, lemma_be_bytes_len, lemma_be_value_be_bytes, lemma_pow256_values,
    put_be_uint,
};
use crate::rc4::{lemma_xor_keystream_involution, xor_keystream, Rc4};
use vstd::prelude::*;

verus! {

/// An error framing a packet.
#[derive(Debug, PartialEq, Clone)]
pub enum CodecError {
    /// A frame declared a total length smaller than the minimum of five.
    Framing(u32),
    /// A packet was too long for its length to fit the 32-bit header.
    TooLong(u64),
}

/// The outcome of one decode step on a receive buffer.
pub enum FrameStep {
    /// Fewer bytes are buffered than the next frame needs.
    NeedMore,
    /// The next frame declares a total length smaller than five.
    BadLength(u32),
    /// A full frame: the raw packet bytes (wire ID, then deciphered
    /// payload) and the total frame length consumed from the buffer.
    Frame(Seq<u8>, int),
}

/// The exact outcome of one decode step on `buf` with the receive
/// keystream at `pos`.
pub open spec fn frame_dec(buf: Seq<u8>, key: Seq<u8>, pos: nat) -> FrameStep {
    if buf.len() < 4 {
        FrameStep::NeedMore
    } else {
        let n = be_value(buf.take(4));
        if n < 5 {
            FrameStep::BadLength(n as u32)
        } else if buf.len() < n {
            FrameStep::NeedMore
        } else {
            FrameStep::Frame(
                seq![buf[4]] + xor_keystream(buf.subrange(5, n as int), key, pos),
                n as int,
            )
        }
    }
}

/// The wire frame a raw packet encodes to with the send keystream at
/// `pos`: the total length (the raw bytes plus the four length bytes),
/// the cleartext wire ID, and the enciphered payload.
pub open spec fn frame_enc(raw: Seq<u8>, key: Seq<u8>, pos: nat) -> Seq<u8>
    recommends
        raw.len() >= 1,
{
    be_bytes((raw.len() + 4) as nat, 4) + seq![raw[0]] + xor_keystream(raw.skip(1), key, pos)
}

/// Law: a frame encoded with a keystream decodes, against the matching
/// keystream state, to the original raw packet, whatever bytes follow the
/// frame in the buffer; the frame's total length is the four length bytes
/// plus one ID byte plus the payload.
pub proof fn lemma_frame_round_trip(raw: Seq<u8>, key: Seq<u8>, pos: nat, rest: Seq<u8>)
    requires
        1 <= raw.len(),
        raw.len() + 4 <= 0xFFFF_FFFF,
    ensures
        frame_enc(raw, key, pos).len() == raw.len() + 4,
        frame_dec(frame_enc(raw, key, pos) + rest, key, pos) matches FrameStep::Frame(r, n) && r
            == raw && n == raw.len() + 4,
{
    let n = (raw.len() + 4) as nat;
    let hdr = be_bytes(n, 4);
    let cipher = xor_keystream(raw.skip(1), key, pos);
    let b = frame_enc(raw, key, pos) + rest;
    lemma_be_bytes_len(n, 4);
    lemma_pow256_values();
    lemma_be_value_be_bytes(n, 4);
    assert(b.take(4) =~= hdr);
    assert(b[4] == raw[0]);
    assert(b.subrange(5, n as int) =~= cipher);
    lemma_xor_keystream_involution(raw.skip(1), key, pos);
    assert(seq![b[4]] + xor_keystream(b.subrange(5, n as int), key, pos) =~= raw);
}

/// The codec for framing and enciphering packets on one connection: the
/// receive and send keystream generators, seeded from complementary halves
/// of the shared binary key.
pub struct Codec {
    recv_rc4: Rc4,
    send_rc4: Rc4,
}

impl Codec {
    /// Both keystream generators are in their stream states.
    pub closed spec fn wf(self) -> bool {
        self.recv_rc4.wf() && self.send_rc4.wf()
    }

    /// The key seeding the receive keystream.
    pub closed spec fn recv_key(self) -> Seq<u8> {
        self.recv_rc4.key()
    }

    /// How many payload bytes the receive keystream has deciphered.
    pub closed spec fn recv_pos(self) -> nat {
        self.recv_rc4.pos()
    }

    /// The key seeding the send keystream.
    pub closed spec fn send_key(self) -> Seq<u8> {
        self.send_rc4.key()
    }

    /// How many payload bytes the send keystream has enciphered.
    pub closed spec fn send_pos(self) -> nat {
        self.send_rc4.pos()
    }

    /// Construct the codec for the client-facing end: it receives with the
    /// first half of the binary key and sends with the second.
    pub fn new_client(mappings: &Mappings) -> (c: Codec)
        ensures
            c.wf(),
            c.recv_key() == mappings.key().take(KEY_LEN as int / 2),
            c.send_key() == mappings.key().skip(KEY_LEN as int / 2),
            c.recv_pos() == 0 && c.send_pos() == 0,
    {
        let (recv_rc4, send_rc4) = mappings.get_ciphers();
        Codec { recv_rc4, send_rc4 }
    }

    /// Construct the codec for the server-facing end: it sends with the
    /// first half of the binary key and receives with the second, the
    /// complement of the client-facing end.
    pub fn new_server(mappings: &Mappings) -> (c: Codec)
        ensures
            c.wf(),
            c.send_key() == mappings.key().take(KEY_LEN as int / 2),
            c.recv_key() == mappings.key().skip(KEY_LEN as int / 2),
            c.recv_pos() == 0 && c.send_pos() == 0,
    {
        let (send_rc4, recv_rc4) = mappings.get_ciphers();
        Codec { recv_rc4, send_rc4 }
    }

    /// One decode step on the receive buffer `buf`. When a full frame is
    /// buffered, its bytes are consumed from the front of `buf`, its
    /// payload is deciphered (advancing the receive keystream by exactly
    /// the payload length), and the raw packet is returned. With fewer
    /// bytes buffered than the next frame needs, nothing changes. A frame
    /// whose declared length is under five is a framing error.
    pub fn decode(&mut self, buf: &mut Vec<u8>) -> (res: Result<Option<RawPacket>, CodecError>)
        requires
            old(self).wf(),
        ensures
            final(self).wf(),
            final(self).recv_key() == old(self).recv_key(),
            final(self).send_key() == old(self).send_key(),
            final(self).send_pos() == old(self).send_pos(),
            match frame_dec(old(buf)@, old(self).recv_key(), old(self).recv_pos()) {
                FrameStep::NeedMore => res == Ok::<Option<RawPacket>, CodecError>(None)
                    && final(buf)@ == old(buf)@ && final(self).recv_pos() == old(self).recv_pos(),
                FrameStep::BadLength(n) => res == Err::<Option<RawPacket>, CodecError>(
                    CodecError::Framing(n),
                ) && final(buf)@ == old(buf)@ && final(self).recv_pos() == old(self).recv_pos(),
                FrameStep::Frame(raw, n) => (res matches Ok(o) && o matches Some(p) && p@ == raw)
                    && final(buf)@ == old(buf)@.skip(n) && final(self).recv_pos() == old(self).recv_pos()
                    + (n - 5),
            },
    {
        let ghost b0 = buf@;
        if buf.len() < 4 {
            return Ok(None);
        }
        let h0 = buf[0];
        let h1 = buf[1];
        let h2 = buf[2];
        let h3 = buf[3];
        let n32 = ((h0 as u32 * 256 + h1 as u32) * 256 + h2 as u32) * 256 + h3 as u32;
        proof {
            let t1 = b0.take(1);
            let t2 = b0.take(2);
            let t3 = b0.take(3);
            let t4 = b0.take(4);
            assert(t1.drop_last() =~= Seq::<u8>::empty());
            assert(t2.drop_last() =~= t1);
            assert(t3.drop_last() =~= t2);
            assert(t4.drop_last() =~= t3);
            assert(t1.last() == h0 && t2.last() == h1 && t3.last() == h2 && t4.last() == h3);
            assert(be_value(Seq::<u8>::empty()) == 0);
            assert(be_value(t1) == h0 as int);
            assert(be_value(t2) == h0 as int * 256 + h1 as int);
            assert(be_value(t3) == (h0 as int * 256 + h1 as int) * 256 + h2 as int);
            assert(be_value(t4) == ((h0 as int * 256 + h1 as int) * 256 + h2 as int) * 256
                + h3 as int);
        }
        if n32 < 5 {
            return Err(CodecError::Framing(n32));
        }
        let n = n32 as usize;
        if buf.len() < n {
            return Ok(None);
        }
        let id = buf[4];
        let mut payload = vstd::slice::slice_to_vec(
            vstd::slice::slice_subrange(buf.as_slice(), 5, n),
        );
        self.recv_rc4.process(&mut payload);
        let rest = vstd::slice::slice_to_vec(
            vstd::slice::slice_subrange(buf.as_slice(), n, buf.len()),
        );
        *buf = rest;
        let mut raw_bytes: Vec<u8> = Vec::new();
        raw_bytes.push(id);
        raw_bytes.append(&mut payload);
        proof {
            assert(buf@ =~= b0.skip(n32 as int));
            assert(raw_bytes@ =~= seq![b0[4]] + xor_keystream(
                b0.subrange(5, n32 as int),
                old(self).recv_key(),
                old(self).recv_pos(),
            ));
        }
        Ok(Some(RawPacket::new(raw_bytes)))
    }

    /// Encode a raw packet as one wire frame appended to `dst`: the total
    /// length, the cleartext wire ID byte, then the payload enciphered
    /// with the send keystream, which advances by exactly the payload
    /// length. A packet too long for the 32-bit length header is refused
    /// and nothing changes.
    pub fn encode(&mut self, packet: RawPacket, dst: &mut Vec<u8>) -> (res: Result<
        (),
        CodecError,
    >)
        requires
            old(self).wf(),
        ensures
            final(self).wf(),
            final(self).recv_key() == old(self).recv_key(),
            final(self).send_key() == old(self).send_key(),
            final(self).recv_pos() == old(self).recv_pos(),
            packet@.len() + 4 <= 0xFFFF_FFFF ==> res == Ok::<(), CodecError>(()) && final(dst)@
                == old(dst)@ + frame_enc(packet@, old(self).send_key(), old(self).send_pos())
                && final(self).send_pos() == old(self).send_pos() + packet@.len() - 1,
            packet@.len() + 4 > 0xFFFF_FFFF ==> res == Err::<(), CodecError>(
                CodecError::TooLong((packet@.len() + 4) as u64),
            ) && final(dst)@ == old(dst)@ && final(self).send_pos() == old(self).send_pos(),
    {
        let ghost p0 = packet@;
        let bytes = packet.into_bytes();
        let len = bytes.len();
        if len > 0xFFFF_FFFB {
            return Err(CodecError::TooLong((len as u128 + 4) as u64));
        }
        put_be_uint(dst, len as u64 + 4, 4);
        dst.push(bytes[0]);
        let mut payload = vstd::slice::slice_to_vec(
            vstd::slice::slice_subrange(bytes.as_slice(), 1, len),
        );
        proof {
            assert(payload@ =~= p0.skip(1));
        }
        self.send_rc4.process(&mut payload);
        dst.append(&mut payload);
        proof {
            assert(dst@ =~= old(dst)@ + frame_enc(p0, old(self).send_key(), old(self).send_pos()));
        }
        Ok(())
    }
}

} // verus!
