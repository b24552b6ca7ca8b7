//! Basic game data records carried inside packet payloads, with their
//! byte adapters. Every record's fields are encoded in declared order.

use crate::adapters::primitives::{F32Bits, F64Bits};
use crate::adapters::rle::{models_of, RLE};
use crate::adapters::{lemma_seq_assoc, lemma_skip_concat, lemma_skip_skip, lemma_take_concat, Error, NetworkAdapter, Reader};
use super::stat::{StatData, StatDataModel};
use vstd::prelude::*;

verus! {

/// One ground tile update: its grid position and tile type.
#[verifier::ext_equal]
#[derive(Debug, PartialEq, Clone)]
pub struct GroundTileData {
    pub x: u16,
    pub y: u16,
    pub tile: u16,
}

impl NetworkAdapter for GroundTileData {
    type Model = GroundTileData;

    open spec fn model(self) -> GroundTileData {
        self
    }

    open spec fn enc_model(m: GroundTileData) -> Seq<u8> {
        <u16 as NetworkAdapter>::enc_model(m.x) + <u16 as NetworkAdapter>::enc_model(m.y) + <u16 as NetworkAdapter>::enc_model(m.tile)
    }

    open spec fn valid_model(m: GroundTileData) -> bool {
        <u16 as NetworkAdapter>::valid_model(m.x) && <u16 as NetworkAdapter>::valid_model(m.y) && <u16 as NetworkAdapter>::valid_model(m.tile)
    }

    open spec fn dec(b: Seq<u8>) -> Result<(GroundTileData, int), Error> {
        match <u16 as NetworkAdapter>::dec(b) {
            Ok((g1, n1)) => {
                let b1 = b.skip(n1);
                match <u16 as NetworkAdapter>::dec(b1) {
                    Ok((g2, n2)) => {
                        let b2 = b1.skip(n2);
                        match <u16 as NetworkAdapter>::dec(b2) {
                            Ok((g3, n3)) => {
                                Ok((GroundTileData { x: g1, y: g2, tile: g3 }, n1 + n2 + n3))
                            },
                            Err(e) => Err(e),
                        }
                    },
                    Err(e) => Err(e),
                }
            },
            Err(e) => Err(e),
        }
    }

    open spec fn canon(b: Seq<u8>) -> bool {
        match <u16 as NetworkAdapter>::dec(b) {
            Ok((g1, n1)) => <u16 as NetworkAdapter>::canon(b) && {
                let b1 = b.skip(n1);
                match <u16 as NetworkAdapter>::dec(b1) {
                    Ok((g2, n2)) => <u16 as NetworkAdapter>::canon(b1) && {
                        let b2 = b1.skip(n2);
                        match <u16 as NetworkAdapter>::dec(b2) {
                            Ok((g3, n3)) => <u16 as NetworkAdapter>::canon(b2) && {
                                true
                            },
                            Err(e) => true,
                        }
                    },
                    Err(e) => true,
                }
            },
            Err(e) => true,
        }
    }

    fn get_be(r: &mut Reader) -> (res: Result<GroundTileData, Error>) {
        let ghost b = old(r).remaining_bytes();
        let save = r.position();
        let x1 = match <u16 as NetworkAdapter>::get_be(r) {
            Ok(v) => v,
            Err(e) => {
                r.seek(save);
                return Err(e);
            },
        };
        let x2 = match <u16 as NetworkAdapter>::get_be(r) {
            Ok(v) => v,
            Err(e) => {
                r.seek(save);
                return Err(e);
            },
        };
        let x3 = match <u16 as NetworkAdapter>::get_be(r) {
            Ok(v) => v,
            Err(e) => {
                r.seek(save);
                return Err(e);
            },
        };
        proof {
            let (g1, n1) = <u16 as NetworkAdapter>::dec(b)->Ok_0;
            let b1 = b.skip(n1);
            let (g2, n2) = <u16 as NetworkAdapter>::dec(b1)->Ok_0;
            let b2 = b1.skip(n2);
            let (g3, n3) = <u16 as NetworkAdapter>::dec(b2)->Ok_0;
            lemma_skip_skip(b, n1, n2);
            assert(b2 == b.skip(n1 + n2));
            lemma_skip_skip(b, n1 + n2, n3);
            assert(b2.skip(n3) == b.skip(n1 + n2 + n3));
        }
        Ok(GroundTileData { x: x1, y: x2, tile: x3 })
    }

    fn put_be(self, out: &mut Vec<u8>) -> (res: Result<(), Error>) {
        let ghost m = self.model();
        let GroundTileData { x, y, tile } = self;
        let ghost e1 = <u16 as NetworkAdapter>::enc_model(m.x);
        let ghost e2 = <u16 as NetworkAdapter>::enc_model(m.y);
        let ghost e3 = <u16 as NetworkAdapter>::enc_model(m.tile);
        let ghost p1 = e1;
        let ghost p2 = p1 + e2;
        let ghost p3 = p2 + e3;
        let mut tmp: Vec<u8> = Vec::new();
        let ghost o0 = tmp@;
        match x.put_be(&mut tmp) {
            Ok(()) => {},
            Err(e) => {
                return Err(e);
            },
        };
        let ghost o1 = tmp@;
        proof {
            assert(x == m.x);
            assert(o1 == o0 + p1);
        }
        match y.put_be(&mut tmp) {
            Ok(()) => {},
            Err(e) => {
                return Err(e);
            },
        };
        let ghost o2 = tmp@;
        proof {
            assert(y == m.y);
            lemma_seq_assoc(o0, p1, e2);
            assert(o2 == o0 + p2);
        }
        match tile.put_be(&mut tmp) {
            Ok(()) => {},
            Err(e) => {
                return Err(e);
            },
        };
        let ghost o3 = tmp@;
        proof {
            assert(tile == m.tile);
            lemma_seq_assoc(o0, p2, e3);
            assert(o3 == o0 + p3);
        }
        out.append(&mut tmp);
        proof {
            assert(Self::enc_model(m) == p3);
            assert(o0 + p3 =~= p3);
            assert(out@ == old(out)@ + Self::enc_model(m));
        }
        Ok(())
    }

    proof fn lemma_dec_enc(m: GroundTileData, rest: Seq<u8>) {
        let e1 = <u16 as NetworkAdapter>::enc_model(m.x);
        let e2 = <u16 as NetworkAdapter>::enc_model(m.y);
        let e3 = <u16 as NetworkAdapter>::enc_model(m.tile);
        let p1 = e1;
        let p2 = p1 + e2;
        let p3 = p2 + e3;
        assert(Self::enc_model(m) == p3);
        let r3 = rest;
        let r2 = e3 + r3;
        let r1 = e2 + r2;
        let b = Self::enc_model(m) + rest;
        lemma_seq_assoc(p2, e3, r3);
        assert(p3 + r3 == p2 + r2);
        lemma_seq_assoc(p1, e2, r2);
        assert(p2 + r2 == p1 + r1);
        assert(b == e1 + r1);
        <u16 as NetworkAdapter>::lemma_dec_enc(m.x, r1);
        <u16 as NetworkAdapter>::lemma_dec_enc(m.y, r2);
        <u16 as NetworkAdapter>::lemma_dec_enc(m.tile, r3);
        let c1 = b.skip(e1.len() as int);
        lemma_skip_concat(e1, r1);
        assert(c1 == r1);
        let c2 = c1.skip(e2.len() as int);
        lemma_skip_concat(e2, r2);
        assert(c2 == r2);
        assert(Self::enc_model(m).len() == e1.len() + e2.len() + e3.len());
        assert(GroundTileData { x: m.x, y: m.y, tile: m.tile } =~= m);
    }

    proof fn lemma_enc_dec(b: Seq<u8>, m: GroundTileData, n: int) {
        let (g1, n1) = <u16 as NetworkAdapter>::dec(b)->Ok_0;
        <u16 as NetworkAdapter>::lemma_enc_dec(b, g1, n1);
        let b1 = b.skip(n1);
        let (g2, n2) = <u16 as NetworkAdapter>::dec(b1)->Ok_0;
        <u16 as NetworkAdapter>::lemma_enc_dec(b1, g2, n2);
        let b2 = b1.skip(n2);
        let (g3, n3) = <u16 as NetworkAdapter>::dec(b2)->Ok_0;
        <u16 as NetworkAdapter>::lemma_enc_dec(b2, g3, n3);
        lemma_skip_skip(b, n1, n2);
        assert(b2 == b.skip(n1 + n2));
        assert(n == n1 + n2 + n3);
        assert(m.x == g1);
        assert(m.y == g2);
        assert(m.tile == g3);
        if Self::canon(b) {
            let s1 = n1;
            let s2 = s1 + n2;
            let s3 = s2 + n3;
            let q1 = <u16 as NetworkAdapter>::enc_model(m.x);
            assert(q1 == b.take(s1));
            lemma_take_concat(b, s1, n2);
            let q2 = q1 + <u16 as NetworkAdapter>::enc_model(m.y);
            assert(q2 == b.take(s2));
            lemma_take_concat(b, s2, n3);
            let q3 = q2 + <u16 as NetworkAdapter>::enc_model(m.tile);
            assert(q3 == b.take(s3));
            assert(Self::enc_model(m) == q3);
            assert(Self::enc_model(m) == b.take(n));
        }
    }
}

/// One timestamped position in a movement history.
#[verifier::ext_equal]
#[derive(Debug, PartialEq, Clone)]
pub struct MoveRecord {
    pub time: u32,
    pub x: F32Bits,
    pub y: F32Bits,
}

impl NetworkAdapter for MoveRecord {
    type Model = MoveRecord;

    open spec fn model(self) -> MoveRecord {
        self
    }

    open spec fn enc_model(m: MoveRecord) -> Seq<u8> {
        <u32 as NetworkAdapter>::enc_model(m.time) + <F32Bits as NetworkAdapter>::enc_model(m.x) + <F32Bits as NetworkAdapter>::enc_model(m.y)
    }

    open spec fn valid_model(m: MoveRecord) -> bool {
        <u32 as NetworkAdapter>::valid_model(m.time) && <F32Bits as NetworkAdapter>::valid_model(m.x) && <F32Bits as NetworkAdapter>::valid_model(m.y)
    }

    open spec fn dec(b: Seq<u8>) -> Result<(MoveRecord, int), Error> {
        match <u32 as NetworkAdapter>::dec(b) {
            Ok((g1, n1)) => {
                let b1 = b.skip(n1);
                match <F32Bits as NetworkAdapter>::dec(b1) {
                    Ok((g2, n2)) => {
                        let b2 = b1.skip(n2);
                        match <F32Bits as NetworkAdapter>::dec(b2) {
                            Ok((g3, n3)) => {
                                Ok((MoveRecord { time: g1, x: g2, y: g3 }, n1 + n2 + n3))
                            },
                            Err(e) => Err(e),
                        }
                    },
                    Err(e) => Err(e),
                }
            },
            Err(e) => Err(e),
        }
    }

    open spec fn canon(b: Seq<u8>) -> bool {
        match <u32 as NetworkAdapter>::dec(b) {
            Ok((g1, n1)) => <u32 as NetworkAdapter>::canon(b) && {
                let b1 = b.skip(n1);
                match <F32Bits as NetworkAdapter>::dec(b1) {
                    Ok((g2, n2)) => <F32Bits as NetworkAdapter>::canon(b1) && {
                        let b2 = b1.skip(n2);
                        match <F32Bits as NetworkAdapter>::dec(b2) {
                            Ok((g3, n3)) => <F32Bits as NetworkAdapter>::canon(b2) && {
                                true
                            },
                            Err(e) => true,
                        }
                    },
                    Err(e) => true,
                }
            },
            Err(e) => true,
        }
    }

    fn get_be(r: &mut Reader) -> (res: Result<MoveRecord, Error>) {
        let ghost b = old(r).remaining_bytes();
        let save = r.position();
        let x1 = match <u32 as NetworkAdapter>::get_be(r) {
            Ok(v) => v,
            Err(e) => {
                r.seek(save);
                return Err(e);
            },
        };
        let x2 = match <F32Bits as NetworkAdapter>::get_be(r) {
            Ok(v) => v,
            Err(e) => {
                r.seek(save);
                return Err(e);
            },
        };
        let x3 = match <F32Bits as NetworkAdapter>::get_be(r) {
            Ok(v) => v,
            Err(e) => {
                r.seek(save);
                return Err(e);
            },
        };
        proof {
            let (g1, n1) = <u32 as NetworkAdapter>::dec(b)->Ok_0;
            let b1 = b.skip(n1);
            let (g2, n2) = <F32Bits as NetworkAdapter>::dec(b1)->Ok_0;
            let b2 = b1.skip(n2);
            let (g3, n3) = <F32Bits as NetworkAdapter>::dec(b2)->Ok_0;
            lemma_skip_skip(b, n1, n2);
            assert(b2 == b.skip(n1 + n2));
            lemma_skip_skip(b, n1 + n2, n3);
            assert(b2.skip(n3) == b.skip(n1 + n2 + n3));
        }
        Ok(MoveRecord { time: x1, x: x2, y: x3 })
    }

    fn put_be(self, out: &mut Vec<u8>) -> (res: Result<(), Error>) {
        let ghost m = self.model();
        let MoveRecord { time, x, y } = self;
        let ghost e1 = <u32 as NetworkAdapter>::enc_model(m.time);
        let ghost e2 = <F32Bits as NetworkAdapter>::enc_model(m.x);
        let ghost e3 = <F32Bits as NetworkAdapter>::enc_model(m.y);
        let ghost p1 = e1;
        let ghost p2 = p1 + e2;
        let ghost p3 = p2 + e3;
        let mut tmp: Vec<u8> = Vec::new();
        let ghost o0 = tmp@;
        match time.put_be(&mut tmp) {
            Ok(()) => {},
            Err(e) => {
                return Err(e);
            },
        };
        let ghost o1 = tmp@;
        proof {
            assert(time == m.time);
            assert(o1 == o0 + p1);
        }
        match x.put_be(&mut tmp) {
            Ok(()) => {},
            Err(e) => {
                return Err(e);
            },
        };
        let ghost o2 = tmp@;
        proof {
            assert(x == m.x);
            lemma_seq_assoc(o0, p1, e2);
            assert(o2 == o0 + p2);
        }
        match y.put_be(&mut tmp) {
            Ok(()) => {},
            Err(e) => {
                return Err(e);
            },
        };
        let ghost o3 = tmp@;
        proof {
            assert(y == m.y);
            lemma_seq_assoc(o0, p2, e3);
            assert(o3 == o0 + p3);
        }
        out.append(&mut tmp);
        proof {
            assert(Self::enc_model(m) == p3);
            assert(o0 + p3 =~= p3);
            assert(out@ == old(out)@ + Self::enc_model(m));
        }
        Ok(())
    }

    proof fn lemma_dec_enc(m: MoveRecord, rest: Seq<u8>) {
        let e1 = <u32 as NetworkAdapter>::enc_model(m.time);
        let e2 = <F32Bits as NetworkAdapter>::enc_model(m.x);
        let e3 = <F32Bits as NetworkAdapter>::enc_model(m.y);
        let p1 = e1;
        let p2 = p1 + e2;
        let p3 = p2 + e3;
        assert(Self::enc_model(m) == p3);
        let r3 = rest;
        let r2 = e3 + r3;
        let r1 = e2 + r2;
        let b = Self::enc_model(m) + rest;
        lemma_seq_assoc(p2, e3, r3);
        assert(p3 + r3 == p2 + r2);
        lemma_seq_assoc(p1, e2, r2);
        assert(p2 + r2 == p1 + r1);
        assert(b == e1 + r1);
        <u32 as NetworkAdapter>::lemma_dec_enc(m.time, r1);
        <F32Bits as NetworkAdapter>::lemma_dec_enc(m.x, r2);
        <F32Bits as NetworkAdapter>::lemma_dec_enc(m.y, r3);
        let c1 = b.skip(e1.len() as int);
        lemma_skip_concat(e1, r1);
        assert(c1 == r1);
        let c2 = c1.skip(e2.len() as int);
        lemma_skip_concat(e2, r2);
        assert(c2 == r2);
        assert(Self::enc_model(m).len() == e1.len() + e2.len() + e3.len());
        assert(MoveRecord { time: m.time, x: m.x, y: m.y } =~= m);
    }

    proof fn lemma_enc_dec(b: Seq<u8>, m: MoveRecord, n: int) {
        let (g1, n1) = <u32 as NetworkAdapter>::dec(b)->Ok_0;
        <u32 as NetworkAdapter>::lemma_enc_dec(b, g1, n1);
        let b1 = b.skip(n1);
        let (g2, n2) = <F32Bits as NetworkAdapter>::dec(b1)->Ok_0;
        <F32Bits as NetworkAdapter>::lemma_enc_dec(b1, g2, n2);
        let b2 = b1.skip(n2);
        let (g3, n3) = <F32Bits as NetworkAdapter>::dec(b2)->Ok_0;
        <F32Bits as NetworkAdapter>::lemma_enc_dec(b2, g3, n3);
        lemma_skip_skip(b, n1, n2);
        assert(b2 == b.skip(n1 + n2));
        assert(n == n1 + n2 + n3);
        assert(m.time == g1);
        assert(m.x == g2);
        assert(m.y == g3);
        if Self::canon(b) {
            let s1 = n1;
            let s2 = s1 + n2;
            let s3 = s2 + n3;
            let q1 = <u32 as NetworkAdapter>::enc_model(m.time);
            assert(q1 == b.take(s1));
            lemma_take_concat(b, s1, n2);
            let q2 = q1 + <F32Bits as NetworkAdapter>::enc_model(m.x);
            assert(q2 == b.take(s2));
            lemma_take_concat(b, s2, n3);
            let q3 = q2 + <F32Bits as NetworkAdapter>::enc_model(m.y);
            assert(q3 == b.take(s3));
            assert(Self::enc_model(m) == q3);
            assert(Self::enc_model(m) == b.take(n));
        }
    }
}

/// A reference to one inventory slot of one object.
#[verifier::ext_equal]
#[derive(Debug, PartialEq, Clone)]
pub struct SlotObjectData {
    pub object_id: u32,
    pub slot_id: u8,
    pub object_type: u32,
}

impl NetworkAdapter for SlotObjectData {
    type Model = SlotObjectData;

    open spec fn model(self) -> SlotObjectData {
        self
    }

    open spec fn enc_model(m: SlotObjectData) -> Seq<u8> {
        <u32 as NetworkAdapter>::enc_model(m.object_id) + <u8 as NetworkAdapter>::enc_model(m.slot_id) + <u32 as NetworkAdapter>::enc_model(m.object_type)
    }

    open spec fn valid_model(m: SlotObjectData) -> bool {
        <u32 as NetworkAdapter>::valid_model(m.object_id) && <u8 as NetworkAdapter>::valid_model(m.slot_id) && <u32 as NetworkAdapter>::valid_model(m.object_type)
    }

    open spec fn dec(b: Seq<u8>) -> Result<(SlotObjectData, int), Error> {
        match <u32 as NetworkAdapter>::dec(b) {
            Ok((g1, n1)) => {
                let b1 = b.skip(n1);
                match <u8 as NetworkAdapter>::dec(b1) {
                    Ok((g2, n2)) => {
                        let b2 = b1.skip(n2);
                        match <u32 as NetworkAdapter>::dec(b2) {
                            Ok((g3, n3)) => {
                                Ok((SlotObjectData { object_id: g1, slot_id: g2, object_type: g3 }, n1 + n2 + n3))
                            },
                            Err(e) => Err(e),
                        }
                    },
                    Err(e) => Err(e),
                }
            },
            Err(e) => Err(e),
        }
    }

    open spec fn canon(b: Seq<u8>) -> bool {
        match <u32 as NetworkAdapter>::dec(b) {
            Ok((g1, n1)) => <u32 as NetworkAdapter>::canon(b) && {
                let b1 = b.skip(n1);
                match <u8 as NetworkAdapter>::dec(b1) {
                    Ok((g2, n2)) => <u8 as NetworkAdapter>::canon(b1) && {
                        let b2 = b1.skip(n2);
                        match <u32 as NetworkAdapter>::dec(b2) {
                            Ok((g3, n3)) => <u32 as NetworkAdapter>::canon(b2) && {
                                true
                            },
                            Err(e) => true,
                        }
                    },
                    Err(e) => true,
                }
            },
            Err(e) => true,
        }
    }

    fn get_be(r: &mut Reader) -> (res: Result<SlotObjectData, Error>) {
        let ghost b = old(r).remaining_bytes();
        let save = r.position();
        let x1 = match <u32 as NetworkAdapter>::get_be(r) {
            Ok(v) => v,
            Err(e) => {
                r.seek(save);
                return Err(e);
            },
        };
        let x2 = match <u8 as NetworkAdapter>::get_be(r) {
            Ok(v) => v,
            Err(e) => {
                r.seek(save);
                return Err(e);
            },
        };
        let x3 = match <u32 as NetworkAdapter>::get_be(r) {
            Ok(v) => v,
            Err(e) => {
                r.seek(save);
                return Err(e);
            },
        };
        proof {
            let (g1, n1) = <u32 as NetworkAdapter>::dec(b)->Ok_0;
            let b1 = b.skip(n1);
            let (g2, n2) = <u8 as NetworkAdapter>::dec(b1)->Ok_0;
            let b2 = b1.skip(n2);
            let (g3, n3) = <u32 as NetworkAdapter>::dec(b2)->Ok_0;
            lemma_skip_skip(b, n1, n2);
            assert(b2 == b.skip(n1 + n2));
            lemma_skip_skip(b, n1 + n2, n3);
            assert(b2.skip(n3) == b.skip(n1 + n2 + n3));
        }
        Ok(SlotObjectData { object_id: x1, slot_id: x2, object_type: x3 })
    }

    fn put_be(self, out: &mut Vec<u8>) -> (res: Result<(), Error>) {
        let ghost m = self.model();
        let SlotObjectData { object_id, slot_id, object_type } = self;
        let ghost e1 = <u32 as NetworkAdapter>::enc_model(m.object_id);
        let ghost e2 = <u8 as NetworkAdapter>::enc_model(m.slot_id);
        let ghost e3 = <u32 as NetworkAdapter>::enc_model(m.object_type);
        let ghost p1 = e1;
        let ghost p2 = p1 + e2;
        let ghost p3 = p2 + e3;
        let mut tmp: Vec<u8> = Vec::new();
        let ghost o0 = tmp@;
        match object_id.put_be(&mut tmp) {
            Ok(()) => {},
            Err(e) => {
                return Err(e);
            },
        };
        let ghost o1 = tmp@;
        proof {
            assert(object_id == m.object_id);
            assert(o1 == o0 + p1);
        }
        match slot_id.put_be(&mut tmp) {
            Ok(()) => {},
            Err(e) => {
                return Err(e);
            },
        };
        let ghost o2 = tmp@;
        proof {
            assert(slot_id == m.slot_id);
            lemma_seq_assoc(o0, p1, e2);
            assert(o2 == o0 + p2);
        }
        match object_type.put_be(&mut tmp) {
            Ok(()) => {},
            Err(e) => {
                return Err(e);
            },
        };
        let ghost o3 = tmp@;
        proof {
            assert(object_type == m.object_type);
            lemma_seq_assoc(o0, p2, e3);
            assert(o3 == o0 + p3);
        }
        out.append(&mut tmp);
        proof {
            assert(Self::enc_model(m) == p3);
            assert(o0 + p3 =~= p3);
            assert(out@ == old(out)@ + Self::enc_model(m));
        }
        Ok(())
    }

    proof fn lemma_dec_enc(m: SlotObjectData, rest: Seq<u8>) {
        let e1 = <u32 as NetworkAdapter>::enc_model(m.object_id);
        let e2 = <u8 as NetworkAdapter>::enc_model(m.slot_id);
        let e3 = <u32 as NetworkAdapter>::enc_model(m.object_type);
        let p1 = e1;
        let p2 = p1 + e2;
        let p3 = p2 + e3;
        assert(Self::enc_model(m) == p3);
        let r3 = rest;
        let r2 = e3 + r3;
        let r1 = e2 + r2;
        let b = Self::enc_model(m) + rest;
        lemma_seq_assoc(p2, e3, r3);
        assert(p3 + r3 == p2 + r2);
        lemma_seq_assoc(p1, e2, r2);
        assert(p2 + r2 == p1 + r1);
        assert(b == e1 + r1);
        <u32 as NetworkAdapter>::lemma_dec_enc(m.object_id, r1);
        <u8 as NetworkAdapter>::lemma_dec_enc(m.slot_id, r2);
        <u32 as NetworkAdapter>::lemma_dec_enc(m.object_type, r3);
        let c1 = b.skip(e1.len() as int);
        lemma_skip_concat(e1, r1);
        assert(c1 == r1);
        let c2 = c1.skip(e2.len() as int);
        lemma_skip_concat(e2, r2);
        assert(c2 == r2);
        assert(Self::enc_model(m).len() == e1.len() + e2.len() + e3.len());
        assert(SlotObjectData { object_id: m.object_id, slot_id: m.slot_id, object_type: m.object_type } =~= m);
    }

    proof fn lemma_enc_dec(b: Seq<u8>, m: SlotObjectData, n: int) {
        let (g1, n1) = <u32 as NetworkAdapter>::dec(b)->Ok_0;
        <u32 as NetworkAdapter>::lemma_enc_dec(b, g1, n1);
        let b1 = b.skip(n1);
        let (g2, n2) = <u8 as NetworkAdapter>::dec(b1)->Ok_0;
        <u8 as NetworkAdapter>::lemma_enc_dec(b1, g2, n2);
        let b2 = b1.skip(n2);
        let (g3, n3) = <u32 as NetworkAdapter>::dec(b2)->Ok_0;
        <u32 as NetworkAdapter>::lemma_enc_dec(b2, g3, n3);
        lemma_skip_skip(b, n1, n2);
        assert(b2 == b.skip(n1 + n2));
        assert(n == n1 + n2 + n3);
        assert(m.object_id == g1);
        assert(m.slot_id == g2);
        assert(m.object_type == g3);
        if Self::canon(b) {
            let s1 = n1;
            let s2 = s1 + n2;
            let s3 = s2 + n3;
            let q1 = <u32 as NetworkAdapter>::enc_model(m.object_id);
            assert(q1 == b.take(s1));
            lemma_take_concat(b, s1, n2);
            let q2 = q1 + <u8 as NetworkAdapter>::enc_model(m.slot_id);
            assert(q2 == b.take(s2));
            lemma_take_concat(b, s2, n3);
            let q3 = q2 + <u32 as NetworkAdapter>::enc_model(m.object_type);
            assert(q3 == b.take(s3));
            assert(Self::enc_model(m) == q3);
            assert(Self::enc_model(m) == b.take(n));
        }
    }
}

/// One item offered in a trade window.
#[verifier::ext_equal]
#[derive(Debug, PartialEq, Clone)]
pub struct TradeItem {
    pub item: u32,
    pub slot_type: u32,
    pub tradeable: bool,
    pub included: bool,
}

impl NetworkAdapter for TradeItem {
    type Model = TradeItem;

    open spec fn model(self) -> TradeItem {
        self
    }

    open spec fn enc_model(m: TradeItem) -> Seq<u8> {
        <u32 as NetworkAdapter>::enc_model(m.item) + <u32 as NetworkAdapter>::enc_model(m.slot_type) + <bool as NetworkAdapter>::enc_model(m.tradeable) + <bool as NetworkAdapter>::enc_model(m.included)
    }

    open spec fn valid_model(m: TradeItem) -> bool {
        <u32 as NetworkAdapter>::valid_model(m.item) && <u32 as NetworkAdapter>::valid_model(m.slot_type) && <bool as NetworkAdapter>::valid_model(m.tradeable) && <bool as NetworkAdapter>::valid_model(m.included)
    }

    open spec fn dec(b: Seq<u8>) -> Result<(TradeItem, int), Error> {
        match <u32 as NetworkAdapter>::dec(b) {
            Ok((g1, n1)) => {
                let b1 = b.skip(n1);
                match <u32 as NetworkAdapter>::dec(b1) {
                    Ok((g2, n2)) => {
                        let b2 = b1.skip(n2);
                        match <bool as NetworkAdapter>::dec(b2) {
                            Ok((g3, n3)) => {
                                let b3 = b2.skip(n3);
                                match <bool as NetworkAdapter>::dec(b3) {
                                    Ok((g4, n4)) => {
                                        Ok((TradeItem { item: g1, slot_type: g2, tradeable: g3, included: g4 }, n1 + n2 + n3 + n4))
                                    },
                                    Err(e) => Err(e),
                                }
                            },
                            Err(e) => Err(e),
                        }
                    },
                    Err(e) => Err(e),
                }
            },
            Err(e) => Err(e),
        }
    }

    open spec fn canon(b: Seq<u8>) -> bool {
        match <u32 as NetworkAdapter>::dec(b) {
            Ok((g1, n1)) => <u32 as NetworkAdapter>::canon(b) && {
                let b1 = b.skip(n1);
                match <u32 as NetworkAdapter>::dec(b1) {
                    Ok((g2, n2)) => <u32 as NetworkAdapter>::canon(b1) && {
                        let b2 = b1.skip(n2);
                        match <bool as NetworkAdapter>::dec(b2) {
                            Ok((g3, n3)) => <bool as NetworkAdapter>::canon(b2) && {
                                let b3 = b2.skip(n3);
                                match <bool as NetworkAdapter>::dec(b3) {
                                    Ok((g4, n4)) => <bool as NetworkAdapter>::canon(b3) && {
                                        true
                                    },
                                    Err(e) => true,
                                }
                            },
                            Err(e) => true,
                        }
                    },
                    Err(e) => true,
                }
            },
            Err(e) => true,
        }
    }

    fn get_be(r: &mut Reader) -> (res: Result<TradeItem, Error>) {
        let ghost b = old(r).remaining_bytes();
        let save = r.position();
        let x1 = match <u32 as NetworkAdapter>::get_be(r) {
            Ok(v) => v,
            Err(e) => {
                r.seek(save);
                return Err(e);
            },
        };
        let x2 = match <u32 as NetworkAdapter>::get_be(r) {
            Ok(v) => v,
            Err(e) => {
                r.seek(save);
                return Err(e);
            },
        };
        let x3 = match <bool as NetworkAdapter>::get_be(r) {
            Ok(v) => v,
            Err(e) => {
                r.seek(save);
                return Err(e);
            },
        };
        let x4 = match <bool as NetworkAdapter>::get_be(r) {
            Ok(v) => v,
            Err(e) => {
                r.seek(save);
                return Err(e);
            },
        };
        proof {
            let (g1, n1) = <u32 as NetworkAdapter>::dec(b)->Ok_0;
            let b1 = b.skip(n1);
            let (g2, n2) = <u32 as NetworkAdapter>::dec(b1)->Ok_0;
            let b2 = b1.skip(n2);
            let (g3, n3) = <bool as NetworkAdapter>::dec(b2)->Ok_0;
            let b3 = b2.skip(n3);
            let (g4, n4) = <bool as NetworkAdapter>::dec(b3)->Ok_0;
            lemma_skip_skip(b, n1, n2);
            assert(b2 == b.skip(n1 + n2));
            lemma_skip_skip(b, n1 + n2, n3);
            assert(b3 == b.skip(n1 + n2 + n3));
            lemma_skip_skip(b, n1 + n2 + n3, n4);
            assert(b3.skip(n4) == b.skip(n1 + n2 + n3 + n4));
        }
        Ok(TradeItem { item: x1, slot_type: x2, tradeable: x3, included: x4 })
    }

    fn put_be(self, out: &mut Vec<u8>) -> (res: Result<(), Error>) {
        let ghost m = self.model();
        let TradeItem { item, slot_type, tradeable, included } = self;
        let ghost e1 = <u32 as NetworkAdapter>::enc_model(m.item);
        let ghost e2 = <u32 as NetworkAdapter>::enc_model(m.slot_type);
        let ghost e3 = <bool as NetworkAdapter>::enc_model(m.tradeable);
        let ghost e4 = <bool as NetworkAdapter>::enc_model(m.included);
        let ghost p1 = e1;
        let ghost p2 = p1 + e2;
        let ghost p3 = p2 + e3;
        let ghost p4 = p3 + e4;
        let mut tmp: Vec<u8> = Vec::new();
        let ghost o0 = tmp@;
        match item.put_be(&mut tmp) {
            Ok(()) => {},
            Err(e) => {
                return Err(e);
            },
        };
        let ghost o1 = tmp@;
        proof {
            assert(item == m.item);
            assert(o1 == o0 + p1);
        }
        match slot_type.put_be(&mut tmp) {
            Ok(()) => {},
            Err(e) => {
                return Err(e);
            },
        };
        let ghost o2 = tmp@;
        proof {
            assert(slot_type == m.slot_type);
            lemma_seq_assoc(o0, p1, e2);
            assert(o2 == o0 + p2);
        }
        match tradeable.put_be(&mut tmp) {
            Ok(()) => {},
            Err(e) => {
                return Err(e);
            },
        };
        let ghost o3 = tmp@;
        proof {
            assert(tradeable == m.tradeable);
            lemma_seq_assoc(o0, p2, e3);
            assert(o3 == o0 + p3);
        }
        match included.put_be(&mut tmp) {
            Ok(()) => {},
            Err(e) => {
                return Err(e);
            },
        };
        let ghost o4 = tmp@;
        proof {
            assert(included == m.included);
            lemma_seq_assoc(o0, p3, e4);
            assert(o4 == o0 + p4);
        }
        out.append(&mut tmp);
        proof {
            assert(Self::enc_model(m) == p4);
            assert(o0 + p4 =~= p4);
            assert(out@ == old(out)@ + Self::enc_model(m));
        }
        Ok(())
    }

    proof fn lemma_dec_enc(m: TradeItem, rest: Seq<u8>) {
        let e1 = <u32 as NetworkAdapter>::enc_model(m.item);
        let e2 = <u32 as NetworkAdapter>::enc_model(m.slot_type);
        let e3 = <bool as NetworkAdapter>::enc_model(m.tradeable);
        let e4 = <bool as NetworkAdapter>::enc_model(m.included);
        let p1 = e1;
        let p2 = p1 + e2;
        let p3 = p2 + e3;
        let p4 = p3 + e4;
        assert(Self::enc_model(m) == p4);
        let r4 = rest;
        let r3 = e4 + r4;
        let r2 = e3 + r3;
        let r1 = e2 + r2;
        let b = Self::enc_model(m) + rest;
        lemma_seq_assoc(p3, e4, r4);
        assert(p4 + r4 == p3 + r3);
        lemma_seq_assoc(p2, e3, r3);
        assert(p3 + r3 == p2 + r2);
        lemma_seq_assoc(p1, e2, r2);
        assert(p2 + r2 == p1 + r1);
        assert(b == e1 + r1);
        <u32 as NetworkAdapter>::lemma_dec_enc(m.item, r1);
        <u32 as NetworkAdapter>::lemma_dec_enc(m.slot_type, r2);
        <bool as NetworkAdapter>::lemma_dec_enc(m.tradeable, r3);
        <bool as NetworkAdapter>::lemma_dec_enc(m.included, r4);
        let c1 = b.skip(e1.len() as int);
        lemma_skip_concat(e1, r1);
        assert(c1 == r1);
        let c2 = c1.skip(e2.len() as int);
        lemma_skip_concat(e2, r2);
        assert(c2 == r2);
        let c3 = c2.skip(e3.len() as int);
        lemma_skip_concat(e3, r3);
        assert(c3 == r3);
        assert(Self::enc_model(m).len() == e1.len() + e2.len() + e3.len() + e4.len());
        assert(TradeItem { item: m.item, slot_type: m.slot_type, tradeable: m.tradeable, included: m.included } =~= m);
    }

    proof fn lemma_enc_dec(b: Seq<u8>, m: TradeItem, n: int) {
        let (g1, n1) = <u32 as NetworkAdapter>::dec(b)->Ok_0;
        <u32 as NetworkAdapter>::lemma_enc_dec(b, g1, n1);
        let b1 = b.skip(n1);
        let (g2, n2) = <u32 as NetworkAdapter>::dec(b1)->Ok_0;
        <u32 as NetworkAdapter>::lemma_enc_dec(b1, g2, n2);
        let b2 = b1.skip(n2);
        let (g3, n3) = <bool as NetworkAdapter>::dec(b2)->Ok_0;
        <bool as NetworkAdapter>::lemma_enc_dec(b2, g3, n3);
        let b3 = b2.skip(n3);
        let (g4, n4) = <bool as NetworkAdapter>::dec(b3)->Ok_0;
        <bool as NetworkAdapter>::lemma_enc_dec(b3, g4, n4);
        lemma_skip_skip(b, n1, n2);
        assert(b2 == b.skip(n1 + n2));
        lemma_skip_skip(b, n1 + n2, n3);
        assert(b3 == b.skip(n1 + n2 + n3));
        assert(n == n1 + n2 + n3 + n4);
        assert(m.item == g1);
        assert(m.slot_type == g2);
        assert(m.tradeable == g3);
        assert(m.included == g4);
        if Self::canon(b) {
            let s1 = n1;
            let s2 = s1 + n2;
            let s3 = s2 + n3;
            let s4 = s3 + n4;
            let q1 = <u32 as NetworkAdapter>::enc_model(m.item);
            assert(q1 == b.take(s1));
            lemma_take_concat(b, s1, n2);
            let q2 = q1 + <u32 as NetworkAdapter>::enc_model(m.slot_type);
            assert(q2 == b.take(s2));
            lemma_take_concat(b, s2, n3);
            let q3 = q2 + <bool as NetworkAdapter>::enc_model(m.tradeable);
            assert(q3 == b.take(s3));
            lemma_take_concat(b, s3, n4);
            let q4 = q3 + <bool as NetworkAdapter>::enc_model(m.included);
            assert(q4 == b.take(s4));
            assert(Self::enc_model(m) == q4);
            assert(Self::enc_model(m) == b.take(n));
        }
    }
}

/// A position in the game world.
#[verifier::ext_equal]
#[derive(Debug, PartialEq, Clone)]
pub struct WorldPosData {
    pub x: F32Bits,
    pub y: F32Bits,
}

impl NetworkAdapter for WorldPosData {
    type Model = WorldPosData;

    open spec fn model(self) -> WorldPosData {
        self
    }

    open spec fn enc_model(m: WorldPosData) -> Seq<u8> {
        <F32Bits as NetworkAdapter>::enc_model(m.x) + <F32Bits as NetworkAdapter>::enc_model(m.y)
    }

    open spec fn valid_model(m: WorldPosData) -> bool {
        <F32Bits as NetworkAdapter>::valid_model(m.x) && <F32Bits as NetworkAdapter>::valid_model(m.y)
    }

    open spec fn dec(b: Seq<u8>) -> Result<(WorldPosData, int), Error> {
        match <F32Bits as NetworkAdapter>::dec(b) {
            Ok((g1, n1)) => {
                let b1 = b.skip(n1);
                match <F32Bits as NetworkAdapter>::dec(b1) {
                    Ok((g2, n2)) => {
                        Ok((WorldPosData { x: g1, y: g2 }, n1 + n2))
                    },
                    Err(e) => Err(e),
                }
            },
            Err(e) => Err(e),
        }
    }

    open spec fn canon(b: Seq<u8>) -> bool {
        match <F32Bits as NetworkAdapter>::dec(b) {
            Ok((g1, n1)) => <F32Bits as NetworkAdapter>::canon(b) && {
                let b1 = b.skip(n1);
                match <F32Bits as NetworkAdapter>::dec(b1) {
                    Ok((g2, n2)) => <F32Bits as NetworkAdapter>::canon(b1) && {
                        true
                    },
                    Err(e) => true,
                }
            },
            Err(e) => true,
        }
    }

    fn get_be(r: &mut Reader) -> (res: Result<WorldPosData, Error>) {
        let ghost b = old(r).remaining_bytes();
        let save = r.position();
        let x1 = match <F32Bits as NetworkAdapter>::get_be(r) {
            Ok(v) => v,
            Err(e) => {
                r.seek(save);
                return Err(e);
            },
        };
        let x2 = match <F32Bits as NetworkAdapter>::get_be(r) {
            Ok(v) => v,
            Err(e) => {
                r.seek(save);
                return Err(e);
            },
        };
        proof {
            let (g1, n1) = <F32Bits as NetworkAdapter>::dec(b)->Ok_0;
            let b1 = b.skip(n1);
            let (g2, n2) = <F32Bits as NetworkAdapter>::dec(b1)->Ok_0;
            lemma_skip_skip(b, n1, n2);
            assert(b1.skip(n2) == b.skip(n1 + n2));
        }
        Ok(WorldPosData { x: x1, y: x2 })
    }

    fn put_be(self, out: &mut Vec<u8>) -> (res: Result<(), Error>) {
        let ghost m = self.model();
        let WorldPosData { x, y } = self;
        let ghost e1 = <F32Bits as NetworkAdapter>::enc_model(m.x);
        let ghost e2 = <F32Bits as NetworkAdapter>::enc_model(m.y);
        let ghost p1 = e1;
        let ghost p2 = p1 + e2;
        let mut tmp: Vec<u8> = Vec::new();
        let ghost o0 = tmp@;
        match x.put_be(&mut tmp) {
            Ok(()) => {},
            Err(e) => {
                return Err(e);
            },
        };
        let ghost o1 = tmp@;
        proof {
            assert(x == m.x);
            assert(o1 == o0 + p1);
        }
        match y.put_be(&mut tmp) {
            Ok(()) => {},
            Err(e) => {
                return Err(e);
            },
        };
        let ghost o2 = tmp@;
        proof {
            assert(y == m.y);
            lemma_seq_assoc(o0, p1, e2);
            assert(o2 == o0 + p2);
        }
        out.append(&mut tmp);
        proof {
            assert(Self::enc_model(m) == p2);
            assert(o0 + p2 =~= p2);
            assert(out@ == old(out)@ + Self::enc_model(m));
        }
        Ok(())
    }

    proof fn lemma_dec_enc(m: WorldPosData, rest: Seq<u8>) {
        let e1 = <F32Bits as NetworkAdapter>::enc_model(m.x);
        let e2 = <F32Bits as NetworkAdapter>::enc_model(m.y);
        let p1 = e1;
        let p2 = p1 + e2;
        assert(Self::enc_model(m) == p2);
        let r2 = rest;
        let r1 = e2 + r2;
        let b = Self::enc_model(m) + rest;
        lemma_seq_assoc(p1, e2, r2);
        assert(p2 + r2 == p1 + r1);
        assert(b == e1 + r1);
        <F32Bits as NetworkAdapter>::lemma_dec_enc(m.x, r1);
        <F32Bits as NetworkAdapter>::lemma_dec_enc(m.y, r2);
        let c1 = b.skip(e1.len() as int);
        lemma_skip_concat(e1, r1);
        assert(c1 == r1);
        assert(Self::enc_model(m).len() == e1.len() + e2.len());
        assert(WorldPosData { x: m.x, y: m.y } =~= m);
    }

    proof fn lemma_enc_dec(b: Seq<u8>, m: WorldPosData, n: int) {
        let (g1, n1) = <F32Bits as NetworkAdapter>::dec(b)->Ok_0;
        <F32Bits as NetworkAdapter>::lemma_enc_dec(b, g1, n1);
        let b1 = b.skip(n1);
        let (g2, n2) = <F32Bits as NetworkAdapter>::dec(b1)->Ok_0;
        <F32Bits as NetworkAdapter>::lemma_enc_dec(b1, g2, n2);
        assert(n == n1 + n2);
        assert(m.x == g1);
        assert(m.y == g2);
        if Self::canon(b) {
            let s1 = n1;
            let s2 = s1 + n2;
            let q1 = <F32Bits as NetworkAdapter>::enc_model(m.x);
            assert(q1 == b.take(s1));
            lemma_take_concat(b, s1, n2);
            let q2 = q1 + <F32Bits as NetworkAdapter>::enc_model(m.y);
            assert(q2 == b.take(s2));
            assert(Self::enc_model(m) == q2);
            assert(Self::enc_model(m) == b.take(n));
        }
    }
}

/// The position and stat list of one object.
#[verifier::ext_equal]
#[derive(Debug, PartialEq, Clone)]
pub struct ObjectStatusData {
    pub object_id: u32,
    pub pos: WorldPosData,
    pub stats: RLE<Vec<StatData>, u16>,
}

/// The mathematical model of a decoded `ObjectStatusData`.
#[verifier::ext_equal]
pub struct ObjectStatusDataModel {
    pub object_id: u32,
    pub pos: WorldPosData,
    pub stats: Seq<StatDataModel>,
}

impl NetworkAdapter for ObjectStatusData {
    type Model = ObjectStatusDataModel;

    open spec fn model(self) -> ObjectStatusDataModel {
        ObjectStatusDataModel {
            object_id: self.object_id.model(),
            pos: self.pos.model(),
            stats: self.stats.model(),
        }
    }

    open spec fn enc_model(m: ObjectStatusDataModel) -> Seq<u8> {
        <u32 as NetworkAdapter>::enc_model(m.object_id) + <WorldPosData as NetworkAdapter>::enc_model(m.pos) + <RLE<Vec<StatData>, u16> as NetworkAdapter>::enc_model(m.stats)
    }

    open spec fn valid_model(m: ObjectStatusDataModel) -> bool {
        <u32 as NetworkAdapter>::valid_model(m.object_id) && <WorldPosData as NetworkAdapter>::valid_model(m.pos) && <RLE<Vec<StatData>, u16> as NetworkAdapter>::valid_model(m.stats)
    }

    open spec fn dec(b: Seq<u8>) -> Result<(ObjectStatusDataModel, int), Error> {
        match <u32 as NetworkAdapter>::dec(b) {
            Ok((g1, n1)) => {
                let b1 = b.skip(n1);
                match <WorldPosData as NetworkAdapter>::dec(b1) {
                    Ok((g2, n2)) => {
                        let b2 = b1.skip(n2);
                        match <RLE<Vec<StatData>, u16> as NetworkAdapter>::dec(b2) {
                            Ok((g3, n3)) => {
                                Ok((ObjectStatusDataModel { object_id: g1, pos: g2, stats: g3 }, n1 + n2 + n3))
                            },
                            Err(e) => Err(e),
                        }
                    },
                    Err(e) => Err(e),
                }
            },
            Err(e) => Err(e),
        }
    }

    open spec fn canon(b: Seq<u8>) -> bool {
        match <u32 as NetworkAdapter>::dec(b) {
            Ok((g1, n1)) => <u32 as NetworkAdapter>::canon(b) && {
                let b1 = b.skip(n1);
                match <WorldPosData as NetworkAdapter>::dec(b1) {
                    Ok((g2, n2)) => <WorldPosData as NetworkAdapter>::canon(b1) && {
                        let b2 = b1.skip(n2);
                        match <RLE<Vec<StatData>, u16> as NetworkAdapter>::dec(b2) {
                            Ok((g3, n3)) => <RLE<Vec<StatData>, u16> as NetworkAdapter>::canon(b2) && {
                                true
                            },
                            Err(e) => true,
                        }
                    },
                    Err(e) => true,
                }
            },
            Err(e) => true,
        }
    }

    fn get_be(r: &mut Reader) -> (res: Result<ObjectStatusData, Error>) {
        let ghost b = old(r).remaining_bytes();
        let save = r.position();
        let x1 = match <u32 as NetworkAdapter>::get_be(r) {
            Ok(v) => v,
            Err(e) => {
                r.seek(save);
                return Err(e);
            },
        };
        let x2 = match <WorldPosData as NetworkAdapter>::get_be(r) {
            Ok(v) => v,
            Err(e) => {
                r.seek(save);
                return Err(e);
            },
        };
        let x3 = match <RLE<Vec<StatData>, u16> as NetworkAdapter>::get_be(r) {
            Ok(v) => v,
            Err(e) => {
                r.seek(save);
                return Err(e);
            },
        };
        proof {
            let (g1, n1) = <u32 as NetworkAdapter>::dec(b)->Ok_0;
            let b1 = b.skip(n1);
            let (g2, n2) = <WorldPosData as NetworkAdapter>::dec(b1)->Ok_0;
            let b2 = b1.skip(n2);
            let (g3, n3) = <RLE<Vec<StatData>, u16> as NetworkAdapter>::dec(b2)->Ok_0;
            lemma_skip_skip(b, n1, n2);
            assert(b2 == b.skip(n1 + n2));
            lemma_skip_skip(b, n1 + n2, n3);
            assert(b2.skip(n3) == b.skip(n1 + n2 + n3));
        }
        Ok(ObjectStatusData { object_id: x1, pos: x2, stats: x3 })
    }

    fn put_be(self, out: &mut Vec<u8>) -> (res: Result<(), Error>) {
        let ghost m = self.model();
        let ObjectStatusData { object_id, pos, stats } = self;
        let ghost e1 = <u32 as NetworkAdapter>::enc_model(m.object_id);
        let ghost e2 = <WorldPosData as NetworkAdapter>::enc_model(m.pos);
        let ghost e3 = <RLE<Vec<StatData>, u16> as NetworkAdapter>::enc_model(m.stats);
        let ghost p1 = e1;
        let ghost p2 = p1 + e2;
        let ghost p3 = p2 + e3;
        let mut tmp: Vec<u8> = Vec::new();
        let ghost o0 = tmp@;
        match object_id.put_be(&mut tmp) {
            Ok(()) => {},
            Err(e) => {
                return Err(e);
            },
        };
        let ghost o1 = tmp@;
        proof {
            assert(object_id.model() == m.object_id);
            assert(o1 == o0 + p1);
        }
        match pos.put_be(&mut tmp) {
            Ok(()) => {},
            Err(e) => {
                return Err(e);
            },
        };
        let ghost o2 = tmp@;
        proof {
            assert(pos.model() == m.pos);
            lemma_seq_assoc(o0, p1, e2);
            assert(o2 == o0 + p2);
        }
        match stats.put_be(&mut tmp) {
            Ok(()) => {},
            Err(e) => {
                return Err(e);
            },
        };
        let ghost o3 = tmp@;
        proof {
            assert(stats.model() == m.stats);
            lemma_seq_assoc(o0, p2, e3);
            assert(o3 == o0 + p3);
        }
        out.append(&mut tmp);
        proof {
            assert(Self::enc_model(m) == p3);
            assert(o0 + p3 =~= p3);
            assert(out@ == old(out)@ + Self::enc_model(m));
        }
        Ok(())
    }

    proof fn lemma_dec_enc(m: ObjectStatusDataModel, rest: Seq<u8>) {
        let e1 = <u32 as NetworkAdapter>::enc_model(m.object_id);
        let e2 = <WorldPosData as NetworkAdapter>::enc_model(m.pos);
        let e3 = <RLE<Vec<StatData>, u16> as NetworkAdapter>::enc_model(m.stats);
        let p1 = e1;
        let p2 = p1 + e2;
        let p3 = p2 + e3;
        assert(Self::enc_model(m) == p3);
        let r3 = rest;
        let r2 = e3 + r3;
        let r1 = e2 + r2;
        let b = Self::enc_model(m) + rest;
        lemma_seq_assoc(p2, e3, r3);
        assert(p3 + r3 == p2 + r2);
        lemma_seq_assoc(p1, e2, r2);
        assert(p2 + r2 == p1 + r1);
        assert(b == e1 + r1);
        <u32 as NetworkAdapter>::lemma_dec_enc(m.object_id, r1);
        <WorldPosData as NetworkAdapter>::lemma_dec_enc(m.pos, r2);
        <RLE<Vec<StatData>, u16> as NetworkAdapter>::lemma_dec_enc(m.stats, r3);
        let c1 = b.skip(e1.len() as int);
        lemma_skip_concat(e1, r1);
        assert(c1 == r1);
        let c2 = c1.skip(e2.len() as int);
        lemma_skip_concat(e2, r2);
        assert(c2 == r2);
        assert(Self::enc_model(m).len() == e1.len() + e2.len() + e3.len());
        assert(ObjectStatusDataModel { object_id: m.object_id, pos: m.pos, stats: m.stats } =~= m);
    }

    proof fn lemma_enc_dec(b: Seq<u8>, m: ObjectStatusDataModel, n: int) {
        let (g1, n1) = <u32 as NetworkAdapter>::dec(b)->Ok_0;
        <u32 as NetworkAdapter>::lemma_enc_dec(b, g1, n1);
        let b1 = b.skip(n1);
        let (g2, n2) = <WorldPosData as NetworkAdapter>::dec(b1)->Ok_0;
        <WorldPosData as NetworkAdapter>::lemma_enc_dec(b1, g2, n2);
        let b2 = b1.skip(n2);
        let (g3, n3) = <RLE<Vec<StatData>, u16> as NetworkAdapter>::dec(b2)->Ok_0;
        <RLE<Vec<StatData>, u16> as NetworkAdapter>::lemma_enc_dec(b2, g3, n3);
        lemma_skip_skip(b, n1, n2);
        assert(b2 == b.skip(n1 + n2));
        assert(n == n1 + n2 + n3);
        assert(m.object_id == g1);
        assert(m.pos == g2);
        assert(m.stats == g3);
        if Self::canon(b) {
            let s1 = n1;
            let s2 = s1 + n2;
            let s3 = s2 + n3;
            let q1 = <u32 as NetworkAdapter>::enc_model(m.object_id);
            assert(q1 == b.take(s1));
            lemma_take_concat(b, s1, n2);
            let q2 = q1 + <WorldPosData as NetworkAdapter>::enc_model(m.pos);
            assert(q2 == b.take(s2));
            lemma_take_concat(b, s2, n3);
            let q3 = q2 + <RLE<Vec<StatData>, u16> as NetworkAdapter>::enc_model(m.stats);
            assert(q3 == b.take(s3));
            assert(Self::enc_model(m) == q3);
            assert(Self::enc_model(m) == b.take(n));
        }
    }
}

/// One object: its type and current status.
#[verifier::ext_equal]
#[derive(Debug, PartialEq, Clone)]
pub struct ObjectData {
    pub object_type: u16,
    pub status: ObjectStatusData,
}

/// The mathematical model of a decoded `ObjectData`.
#[verifier::ext_equal]
pub struct ObjectDataModel {
    pub object_type: u16,
    pub status: ObjectStatusDataModel,
}

impl NetworkAdapter for ObjectData {
    type Model = ObjectDataModel;

    open spec fn model(self) -> ObjectDataModel {
        ObjectDataModel {
            object_type: self.object_type.model(),
            status: self.status.model(),
        }
    }

    open spec fn enc_model(m: ObjectDataModel) -> Seq<u8> {
        <u16 as NetworkAdapter>::enc_model(m.object_type) + <ObjectStatusData as NetworkAdapter>::enc_model(m.status)
    }

    open spec fn valid_model(m: ObjectDataModel) -> bool {
        <u16 as NetworkAdapter>::valid_model(m.object_type) && <ObjectStatusData as NetworkAdapter>::valid_model(m.status)
    }

    open spec fn dec(b: Seq<u8>) -> Result<(ObjectDataModel, int), Error> {
        match <u16 as NetworkAdapter>::dec(b) {
            Ok((g1, n1)) => {
                let b1 = b.skip(n1);
                match <ObjectStatusData as NetworkAdapter>::dec(b1) {
                    Ok((g2, n2)) => {
                        Ok((ObjectDataModel { object_type: g1, status: g2 }, n1 + n2))
                    },
                    Err(e) => Err(e),
                }
            },
            Err(e) => Err(e),
        }
    }

    open spec fn canon(b: Seq<u8>) -> bool {
        match <u16 as NetworkAdapter>::dec(b) {
            Ok((g1, n1)) => <u16 as NetworkAdapter>::canon(b) && {
                let b1 = b.skip(n1);
                match <ObjectStatusData as NetworkAdapter>::dec(b1) {
                    Ok((g2, n2)) => <ObjectStatusData as NetworkAdapter>::canon(b1) && {
                        true
                    },
                    Err(e) => true,
                }
            },
            Err(e) => true,
        }
    }

    fn get_be(r: &mut Reader) -> (res: Result<ObjectData, Error>) {
        let ghost b = old(r).remaining_bytes();
        let save = r.position();
        let x1 = match <u16 as NetworkAdapter>::get_be(r) {
            Ok(v) => v,
            Err(e) => {
                r.seek(save);
                return Err(e);
            },
        };
        let x2 = match <ObjectStatusData as NetworkAdapter>::get_be(r) {
            Ok(v) => v,
            Err(e) => {
                r.seek(save);
                return Err(e);
            },
        };
        proof {
            let (g1, n1) = <u16 as NetworkAdapter>::dec(b)->Ok_0;
            let b1 = b.skip(n1);
            let (g2, n2) = <ObjectStatusData as NetworkAdapter>::dec(b1)->Ok_0;
            lemma_skip_skip(b, n1, n2);
            assert(b1.skip(n2) == b.skip(n1 + n2));
        }
        Ok(ObjectData { object_type: x1, status: x2 })
    }

    fn put_be(self, out: &mut Vec<u8>) -> (res: Result<(), Error>) {
        let ghost m = self.model();
        let ObjectData { object_type, status } = self;
        let ghost e1 = <u16 as NetworkAdapter>::enc_model(m.object_type);
        let ghost e2 = <ObjectStatusData as NetworkAdapter>::enc_model(m.status);
        let ghost p1 = e1;
        let ghost p2 = p1 + e2;
        let mut tmp: Vec<u8> = Vec::new();
        let ghost o0 = tmp@;
        match object_type.put_be(&mut tmp) {
            Ok(()) => {},
            Err(e) => {
                return Err(e);
            },
        };
        let ghost o1 = tmp@;
        proof {
            assert(object_type.model() == m.object_type);
            assert(o1 == o0 + p1);
        }
        match status.put_be(&mut tmp) {
            Ok(()) => {},
            Err(e) => {
                return Err(e);
            },
        };
        let ghost o2 = tmp@;
        proof {
            assert(status.model() == m.status);
            lemma_seq_assoc(o0, p1, e2);
            assert(o2 == o0 + p2);
        }
        out.append(&mut tmp);
        proof {
            assert(Self::enc_model(m) == p2);
            assert(o0 + p2 =~= p2);
            assert(out@ == old(out)@ + Self::enc_model(m));
        }
        Ok(())
    }

    proof fn lemma_dec_enc(m: ObjectDataModel, rest: Seq<u8>) {
        let e1 = <u16 as NetworkAdapter>::enc_model(m.object_type);
        let e2 = <ObjectStatusData as NetworkAdapter>::enc_model(m.status);
        let p1 = e1;
        let p2 = p1 + e2;
        assert(Self::enc_model(m) == p2);
        let r2 = rest;
        let r1 = e2 + r2;
        let b = Self::enc_model(m) + rest;
        lemma_seq_assoc(p1, e2, r2);
        assert(p2 + r2 == p1 + r1);
        assert(b == e1 + r1);
        <u16 as NetworkAdapter>::lemma_dec_enc(m.object_type, r1);
        <ObjectStatusData as NetworkAdapter>::lemma_dec_enc(m.status, r2);
        let c1 = b.skip(e1.len() as int);
        lemma_skip_concat(e1, r1);
        assert(c1 == r1);
        assert(Self::enc_model(m).len() == e1.len() + e2.len());
        assert(ObjectDataModel { object_type: m.object_type, status: m.status } =~= m);
    }

    proof fn lemma_enc_dec(b: Seq<u8>, m: ObjectDataModel, n: int) {
        let (g1, n1) = <u16 as NetworkAdapter>::dec(b)->Ok_0;
        <u16 as NetworkAdapter>::lemma_enc_dec(b, g1, n1);
        let b1 = b.skip(n1);
        let (g2, n2) = <ObjectStatusData as NetworkAdapter>::dec(b1)->Ok_0;
        <ObjectStatusData as NetworkAdapter>::lemma_enc_dec(b1, g2, n2);
        assert(n == n1 + n2);
        assert(m.object_type == g1);
        assert(m.status == g2);
        if Self::canon(b) {
            let s1 = n1;
            let s2 = s1 + n2;
            let q1 = <u16 as NetworkAdapter>::enc_model(m.object_type);
            assert(q1 == b.take(s1));
            lemma_take_concat(b, s1, n2);
            let q2 = q1 + <ObjectStatusData as NetworkAdapter>::enc_model(m.status);
            assert(q2 == b.take(s2));
            assert(Self::enc_model(m) == q2);
            assert(Self::enc_model(m) == b.take(n));
        }
    }
}

/// One quest offer: its identity, text, and reward lists.
#[verifier::ext_equal]
#[derive(Debug, PartialEq, Clone)]
pub struct QuestData {
    pub id: RLE<String, u16>,
    pub name: RLE<String, u16>,
    pub description: RLE<String, u16>,
    pub category: u32,
    pub requirements: RLE<Vec<u32>, u16>,
    pub rewards: RLE<Vec<u32>, u16>,
    pub completed: bool,
    pub item_of_choice: bool,
    pub repeatable: bool,
}

/// The mathematical model of a decoded `QuestData`.
#[verifier::ext_equal]
pub struct QuestDataModel {
    pub id: Seq<char>,
    pub name: Seq<char>,
    pub description: Seq<char>,
    pub category: u32,
    pub requirements: Seq<u32>,
    pub rewards: Seq<u32>,
    pub completed: bool,
    pub item_of_choice: bool,
    pub repeatable: bool,
}

impl NetworkAdapter for QuestData {
    type Model = QuestDataModel;

    open spec fn model(self) -> QuestDataModel {
        QuestDataModel {
            id: self.id.model(),
            name: self.name.model(),
            description: self.description.model(),
            category: self.category.model(),
            requirements: self.requirements.model(),
            rewards: self.rewards.model(),
            completed: self.completed.model(),
            item_of_choice: self.item_of_choice.model(),
            repeatable: self.repeatable.model(),
        }
    }

    open spec fn enc_model(m: QuestDataModel) -> Seq<u8> {
        <RLE<String, u16> as NetworkAdapter>::enc_model(m.id) + <RLE<String, u16> as NetworkAdapter>::enc_model(m.name) + <RLE<String, u16> as NetworkAdapter>::enc_model(m.description) + <u32 as NetworkAdapter>::enc_model(m.category) + <RLE<Vec<u32>, u16> as NetworkAdapter>::enc_model(m.requirements) + <RLE<Vec<u32>, u16> as NetworkAdapter>::enc_model(m.rewards) + <bool as NetworkAdapter>::enc_model(m.completed) + <bool as NetworkAdapter>::enc_model(m.item_of_choice) + <bool as NetworkAdapter>::enc_model(m.repeatable)
    }

    open spec fn valid_model(m: QuestDataModel) -> bool {
        <RLE<String, u16> as NetworkAdapter>::valid_model(m.id) && <RLE<String, u16> as NetworkAdapter>::valid_model(m.name) && <RLE<String, u16> as NetworkAdapter>::valid_model(m.description) && <u32 as NetworkAdapter>::valid_model(m.category) && <RLE<Vec<u32>, u16> as NetworkAdapter>::valid_model(m.requirements) && <RLE<Vec<u32>, u16> as NetworkAdapter>::valid_model(m.rewards) && <bool as NetworkAdapter>::valid_model(m.completed) && <bool as NetworkAdapter>::valid_model(m.item_of_choice) && <bool as NetworkAdapter>::valid_model(m.repeatable)
    }

    open spec fn dec(b: Seq<u8>) -> Result<(QuestDataModel, int), Error> {
        match <RLE<String, u16> as NetworkAdapter>::dec(b) {
            Ok((g1, n1)) => {
                let b1 = b.skip(n1);
                match <RLE<String, u16> as NetworkAdapter>::dec(b1) {
                    Ok((g2, n2)) => {
                        let b2 = b1.skip(n2);
                        match <RLE<String, u16> as NetworkAdapter>::dec(b2) {
                            Ok((g3, n3)) => {
                                let b3 = b2.skip(n3);
                                match <u32 as NetworkAdapter>::dec(b3) {
                                    Ok((g4, n4)) => {
                                        let b4 = b3.skip(n4);
                                        match <RLE<Vec<u32>, u16> as NetworkAdapter>::dec(b4) {
                                            Ok((g5, n5)) => {
                                                let b5 = b4.skip(n5);
                                                match <RLE<Vec<u32>, u16> as NetworkAdapter>::dec(b5) {
                                                    Ok((g6, n6)) => {
                                                        let b6 = b5.skip(n6);
                                                        match <bool as NetworkAdapter>::dec(b6) {
                                                            Ok((g7, n7)) => {
                                                                let b7 = b6.skip(n7);
                                                                match <bool as NetworkAdapter>::dec(b7) {
                                                                    Ok((g8, n8)) => {
                                                                        let b8 = b7.skip(n8);
                                                                        match <bool as NetworkAdapter>::dec(b8) {
                                                                            Ok((g9, n9)) => {
                                                                                Ok((QuestDataModel { id: g1, name: g2, description: g3, category: g4, requirements: g5, rewards: g6, completed: g7, item_of_choice: g8, repeatable: g9 }, n1 + n2 + n3 + n4 + n5 + n6 + n7 + n8 + n9))
                                                                            },
                                                                            Err(e) => Err(e),
                                                                        }
                                                                    },
                                                                    Err(e) => Err(e),
                                                                }
                                                            },
                                                            Err(e) => Err(e),
                                                        }
                                                    },
                                                    Err(e) => Err(e),
                                                }
                                            },
                                            Err(e) => Err(e),
                                        }
                                    },
                                    Err(e) => Err(e),
                                }
                            },
                            Err(e) => Err(e),
                        }
                    },
                    Err(e) => Err(e),
                }
            },
            Err(e) => Err(e),
        }
    }

    open spec fn canon(b: Seq<u8>) -> bool {
        match <RLE<String, u16> as NetworkAdapter>::dec(b) {
            Ok((g1, n1)) => <RLE<String, u16> as NetworkAdapter>::canon(b) && {
                let b1 = b.skip(n1);
                match <RLE<String, u16> as NetworkAdapter>::dec(b1) {
                    Ok((g2, n2)) => <RLE<String, u16> as NetworkAdapter>::canon(b1) && {
                        let b2 = b1.skip(n2);
                        match <RLE<String, u16> as NetworkAdapter>::dec(b2) {
                            Ok((g3, n3)) => <RLE<String, u16> as NetworkAdapter>::canon(b2) && {
                                let b3 = b2.skip(n3);
                                match <u32 as NetworkAdapter>::dec(b3) {
                                    Ok((g4, n4)) => <u32 as NetworkAdapter>::canon(b3) && {
                                        let b4 = b3.skip(n4);
                                        match <RLE<Vec<u32>, u16> as NetworkAdapter>::dec(b4) {
                                            Ok((g5, n5)) => <RLE<Vec<u32>, u16> as NetworkAdapter>::canon(b4) && {
                                                let b5 = b4.skip(n5);
                                                match <RLE<Vec<u32>, u16> as NetworkAdapter>::dec(b5) {
                                                    Ok((g6, n6)) => <RLE<Vec<u32>, u16> as NetworkAdapter>::canon(b5) && {
                                                        let b6 = b5.skip(n6);
                                                        match <bool as NetworkAdapter>::dec(b6) {
                                                            Ok((g7, n7)) => <bool as NetworkAdapter>::canon(b6) && {
                                                                let b7 = b6.skip(n7);
                                                                match <bool as NetworkAdapter>::dec(b7) {
                                                                    Ok((g8, n8)) => <bool as NetworkAdapter>::canon(b7) && {
                                                                        let b8 = b7.skip(n8);
                                                                        match <bool as NetworkAdapter>::dec(b8) {
                                                                            Ok((g9, n9)) => <bool as NetworkAdapter>::canon(b8) && {
                                                                                true
                                                                            },
                                                                            Err(e) => true,
                                                                        }
                                                                    },
                                                                    Err(e) => true,
                                                                }
                                                            },
                                                            Err(e) => true,
                                                        }
                                                    },
                                                    Err(e) => true,
                                                }
                                            },
                                            Err(e) => true,
                                        }
                                    },
                                    Err(e) => true,
                                }
                            },
                            Err(e) => true,
                        }
                    },
                    Err(e) => true,
                }
            },
            Err(e) => true,
        }
    }

    #[verifier::rlimit(100)]
    #[verifier::spinoff_prover]
    fn get_be(r: &mut Reader) -> (res: Result<QuestData, Error>) {
        let ghost b = old(r).remaining_bytes();
        let save = r.position();
        let x1 = match <RLE<String, u16> as NetworkAdapter>::get_be(r) {
            Ok(v) => v,
            Err(e) => {
                r.seek(save);
                return Err(e);
            },
        };
        let x2 = match <RLE<String, u16> as NetworkAdapter>::get_be(r) {
            Ok(v) => v,
            Err(e) => {
                r.seek(save);
                return Err(e);
            },
        };
        let x3 = match <RLE<String, u16> as NetworkAdapter>::get_be(r) {
            Ok(v) => v,
            Err(e) => {
                r.seek(save);
                return Err(e);
            },
        };
        let x4 = match <u32 as NetworkAdapter>::get_be(r) {
            Ok(v) => v,
            Err(e) => {
                r.seek(save);
                return Err(e);
            },
        };
        let x5 = match <RLE<Vec<u32>, u16> as NetworkAdapter>::get_be(r) {
            Ok(v) => v,
            Err(e) => {
                r.seek(save);
                return Err(e);
            },
        };
        let x6 = match <RLE<Vec<u32>, u16> as NetworkAdapter>::get_be(r) {
            Ok(v) => v,
            Err(e) => {
                r.seek(save);
                return Err(e);
            },
        };
        let x7 = match <bool as NetworkAdapter>::get_be(r) {
            Ok(v) => v,
            Err(e) => {
                r.seek(save);
                return Err(e);
            },
        };
        let x8 = match <bool as NetworkAdapter>::get_be(r) {
            Ok(v) => v,
            Err(e) => {
                r.seek(save);
                return Err(e);
            },
        };
        let x9 = match <bool as NetworkAdapter>::get_be(r) {
            Ok(v) => v,
            Err(e) => {
                r.seek(save);
                return Err(e);
            },
        };
        proof {
            let (g1, n1) = <RLE<String, u16> as NetworkAdapter>::dec(b)->Ok_0;
            let b1 = b.skip(n1);
            let (g2, n2) = <RLE<String, u16> as NetworkAdapter>::dec(b1)->Ok_0;
            let b2 = b1.skip(n2);
            let (g3, n3) = <RLE<String, u16> as NetworkAdapter>::dec(b2)->Ok_0;
            let b3 = b2.skip(n3);
            let (g4, n4) = <u32 as NetworkAdapter>::dec(b3)->Ok_0;
            let b4 = b3.skip(n4);
            let (g5, n5) = <RLE<Vec<u32>, u16> as NetworkAdapter>::dec(b4)->Ok_0;
            let b5 = b4.skip(n5);
            let (g6, n6) = <RLE<Vec<u32>, u16> as NetworkAdapter>::dec(b5)->Ok_0;
            let b6 = b5.skip(n6);
            let (g7, n7) = <bool as NetworkAdapter>::dec(b6)->Ok_0;
            let b7 = b6.skip(n7);
            let (g8, n8) = <bool as NetworkAdapter>::dec(b7)->Ok_0;
            let b8 = b7.skip(n8);
            let (g9, n9) = <bool as NetworkAdapter>::dec(b8)->Ok_0;
            lemma_skip_skip(b, n1, n2);
            assert(b2 == b.skip(n1 + n2));
            lemma_skip_skip(b, n1 + n2, n3);
            assert(b3 == b.skip(n1 + n2 + n3));
            lemma_skip_skip(b, n1 + n2 + n3, n4);
            assert(b4 == b.skip(n1 + n2 + n3 + n4));
            lemma_skip_skip(b, n1 + n2 + n3 + n4, n5);
            assert(b5 == b.skip(n1 + n2 + n3 + n4 + n5));
            lemma_skip_skip(b, n1 + n2 + n3 + n4 + n5, n6);
            assert(b6 == b.skip(n1 + n2 + n3 + n4 + n5 + n6));
            lemma_skip_skip(b, n1 + n2 + n3 + n4 + n5 + n6, n7);
            assert(b7 == b.skip(n1 + n2 + n3 + n4 + n5 + n6 + n7));
            lemma_skip_skip(b, n1 + n2 + n3 + n4 + n5 + n6 + n7, n8);
            assert(b8 == b.skip(n1 + n2 + n3 + n4 + n5 + n6 + n7 + n8));
            lemma_skip_skip(b, n1 + n2 + n3 + n4 + n5 + n6 + n7 + n8, n9);
            assert(b8.skip(n9) == b.skip(n1 + n2 + n3 + n4 + n5 + n6 + n7 + n8 + n9));
        }
        Ok(QuestData { id: x1, name: x2, description: x3, category: x4, requirements: x5, rewards: x6, completed: x7, item_of_choice: x8, repeatable: x9 })
    }

    #[verifier::rlimit(100)]
    #[verifier::spinoff_prover]
    fn put_be(self, out: &mut Vec<u8>) -> (res: Result<(), Error>) {
        let ghost m = self.model();
        let QuestData { id, name, description, category, requirements, rewards, completed, item_of_choice, repeatable } = self;
        let ghost e1 = <RLE<String, u16> as NetworkAdapter>::enc_model(m.id);
        let ghost e2 = <RLE<String, u16> as NetworkAdapter>::enc_model(m.name);
        let ghost e3 = <RLE<String, u16> as NetworkAdapter>::enc_model(m.description);
        let ghost e4 = <u32 as NetworkAdapter>::enc_model(m.category);
        let ghost e5 = <RLE<Vec<u32>, u16> as NetworkAdapter>::enc_model(m.requirements);
        let ghost e6 = <RLE<Vec<u32>, u16> as NetworkAdapter>::enc_model(m.rewards);
        let ghost e7 = <bool as NetworkAdapter>::enc_model(m.completed);
        let ghost e8 = <bool as NetworkAdapter>::enc_model(m.item_of_choice);
        let ghost e9 = <bool as NetworkAdapter>::enc_model(m.repeatable);
        let ghost p1 = e1;
        let ghost p2 = p1 + e2;
        let ghost p3 = p2 + e3;
        let ghost p4 = p3 + e4;
        let ghost p5 = p4 + e5;
        let ghost p6 = p5 + e6;
        let ghost p7 = p6 + e7;
        let ghost p8 = p7 + e8;
        let ghost p9 = p8 + e9;
        let mut tmp: Vec<u8> = Vec::new();
        let ghost o0 = tmp@;
        match id.put_be(&mut tmp) {
            Ok(()) => {},
            Err(e) => {
                return Err(e);
            },
        };
        let ghost o1 = tmp@;
        proof {
            assert(id.model() == m.id);
            assert(o1 == o0 + p1);
        }
        match name.put_be(&mut tmp) {
            Ok(()) => {},
            Err(e) => {
                return Err(e);
            },
        };
        let ghost o2 = tmp@;
        proof {
            assert(name.model() == m.name);
            lemma_seq_assoc(o0, p1, e2);
            assert(o2 == o0 + p2);
        }
        match description.put_be(&mut tmp) {
            Ok(()) => {},
            Err(e) => {
                return Err(e);
            },
        };
        let ghost o3 = tmp@;
        proof {
            assert(description.model() == m.description);
            lemma_seq_assoc(o0, p2, e3);
            assert(o3 == o0 + p3);
        }
        match category.put_be(&mut tmp) {
            Ok(()) => {},
            Err(e) => {
                return Err(e);
            },
        };
        let ghost o4 = tmp@;
        proof {
            assert(category.model() == m.category);
            lemma_seq_assoc(o0, p3, e4);
            assert(o4 == o0 + p4);
        }
        match requirements.put_be(&mut tmp) {
            Ok(()) => {},
            Err(e) => {
                return Err(e);
            },
        };
        let ghost o5 = tmp@;
        proof {
            assert(requirements.model() == m.requirements);
            lemma_seq_assoc(o0, p4, e5);
            assert(o5 == o0 + p5);
        }
        match rewards.put_be(&mut tmp) {
            Ok(()) => {},
            Err(e) => {
                return Err(e);
            },
        };
        let ghost o6 = tmp@;
        proof {
            assert(rewards.model() == m.rewards);
            lemma_seq_assoc(o0, p5, e6);
            assert(o6 == o0 + p6);
        }
        match completed.put_be(&mut tmp) {
            Ok(()) => {},
            Err(e) => {
                return Err(e);
            },
        };
        let ghost o7 = tmp@;
        proof {
            assert(completed.model() == m.completed);
            lemma_seq_assoc(o0, p6, e7);
            assert(o7 == o0 + p7);
        }
        match item_of_choice.put_be(&mut tmp) {
            Ok(()) => {},
            Err(e) => {
                return Err(e);
            },
        };
        let ghost o8 = tmp@;
        proof {
            assert(item_of_choice.model() == m.item_of_choice);
            lemma_seq_assoc(o0, p7, e8);
            assert(o8 == o0 + p8);
        }
        match repeatable.put_be(&mut tmp) {
            Ok(()) => {},
            Err(e) => {
                return Err(e);
            },
        };
        let ghost o9 = tmp@;
        proof {
            assert(repeatable.model() == m.repeatable);
            lemma_seq_assoc(o0, p8, e9);
            assert(o9 == o0 + p9);
        }
        out.append(&mut tmp);
        proof {
            assert(Self::enc_model(m) == p9);
            assert(o0 + p9 =~= p9);
            assert(out@ == old(out)@ + Self::enc_model(m));
        }
        Ok(())
    }

    #[verifier::rlimit(100)]
    #[verifier::spinoff_prover]
    proof fn lemma_dec_enc(m: QuestDataModel, rest: Seq<u8>) {
        let e1 = <RLE<String, u16> as NetworkAdapter>::enc_model(m.id);
        let e2 = <RLE<String, u16> as NetworkAdapter>::enc_model(m.name);
        let e3 = <RLE<String, u16> as NetworkAdapter>::enc_model(m.description);
        let e4 = <u32 as NetworkAdapter>::enc_model(m.category);
        let e5 = <RLE<Vec<u32>, u16> as NetworkAdapter>::enc_model(m.requirements);
        let e6 = <RLE<Vec<u32>, u16> as NetworkAdapter>::enc_model(m.rewards);
        let e7 = <bool as NetworkAdapter>::enc_model(m.completed);
        let e8 = <bool as NetworkAdapter>::enc_model(m.item_of_choice);
        let e9 = <bool as NetworkAdapter>::enc_model(m.repeatable);
        let p1 = e1;
        let p2 = p1 + e2;
        let p3 = p2 + e3;
        let p4 = p3 + e4;
        let p5 = p4 + e5;
        let p6 = p5 + e6;
        let p7 = p6 + e7;
        let p8 = p7 + e8;
        let p9 = p8 + e9;
        assert(Self::enc_model(m) == p9);
        let r9 = rest;
        let r8 = e9 + r9;
        let r7 = e8 + r8;
        let r6 = e7 + r7;
        let r5 = e6 + r6;
        let r4 = e5 + r5;
        let r3 = e4 + r4;
        let r2 = e3 + r3;
        let r1 = e2 + r2;
        let b = Self::enc_model(m) + rest;
        lemma_seq_assoc(p8, e9, r9);
        assert(p9 + r9 == p8 + r8);
        lemma_seq_assoc(p7, e8, r8);
        assert(p8 + r8 == p7 + r7);
        lemma_seq_assoc(p6, e7, r7);
        assert(p7 + r7 == p6 + r6);
        lemma_seq_assoc(p5, e6, r6);
        assert(p6 + r6 == p5 + r5);
        lemma_seq_assoc(p4, e5, r5);
        assert(p5 + r5 == p4 + r4);
        lemma_seq_assoc(p3, e4, r4);
        assert(p4 + r4 == p3 + r3);
        lemma_seq_assoc(p2, e3, r3);
        assert(p3 + r3 == p2 + r2);
        lemma_seq_assoc(p1, e2, r2);
        assert(p2 + r2 == p1 + r1);
        assert(b == e1 + r1);
        <RLE<String, u16> as NetworkAdapter>::lemma_dec_enc(m.id, r1);
        <RLE<String, u16> as NetworkAdapter>::lemma_dec_enc(m.name, r2);
        <RLE<String, u16> as NetworkAdapter>::lemma_dec_enc(m.description, r3);
        <u32 as NetworkAdapter>::lemma_dec_enc(m.category, r4);
        <RLE<Vec<u32>, u16> as NetworkAdapter>::lemma_dec_enc(m.requirements, r5);
        <RLE<Vec<u32>, u16> as NetworkAdapter>::lemma_dec_enc(m.rewards, r6);
        <bool as NetworkAdapter>::lemma_dec_enc(m.completed, r7);
        <bool as NetworkAdapter>::lemma_dec_enc(m.item_of_choice, r8);
        <bool as NetworkAdapter>::lemma_dec_enc(m.repeatable, r9);
        let c1 = b.skip(e1.len() as int);
        lemma_skip_concat(e1, r1);
        assert(c1 == r1);
        let c2 = c1.skip(e2.len() as int);
        lemma_skip_concat(e2, r2);
        assert(c2 == r2);
        let c3 = c2.skip(e3.len() as int);
        lemma_skip_concat(e3, r3);
        assert(c3 == r3);
        let c4 = c3.skip(e4.len() as int);
        lemma_skip_concat(e4, r4);
        assert(c4 == r4);
        let c5 = c4.skip(e5.len() as int);
        lemma_skip_concat(e5, r5);
        assert(c5 == r5);
        let c6 = c5.skip(e6.len() as int);
        lemma_skip_concat(e6, r6);
        assert(c6 == r6);
        let c7 = c6.skip(e7.len() as int);
        lemma_skip_concat(e7, r7);
        assert(c7 == r7);
        let c8 = c7.skip(e8.len() as int);
        lemma_skip_concat(e8, r8);
        assert(c8 == r8);
        assert(Self::enc_model(m).len() == e1.len() + e2.len() + e3.len() + e4.len() + e5.len() + e6.len() + e7.len() + e8.len() + e9.len());
        assert(QuestDataModel { id: m.id, name: m.name, description: m.description, category: m.category, requirements: m.requirements, rewards: m.rewards, completed: m.completed, item_of_choice: m.item_of_choice, repeatable: m.repeatable } =~= m);
    }

    #[verifier::rlimit(100)]
    #[verifier::spinoff_prover]
    proof fn lemma_enc_dec(b: Seq<u8>, m: QuestDataModel, n: int) {
        let (g1, n1) = <RLE<String, u16> as NetworkAdapter>::dec(b)->Ok_0;
        <RLE<String, u16> as NetworkAdapter>::lemma_enc_dec(b, g1, n1);
        let b1 = b.skip(n1);
        let (g2, n2) = <RLE<String, u16> as NetworkAdapter>::dec(b1)->Ok_0;
        <RLE<String, u16> as NetworkAdapter>::lemma_enc_dec(b1, g2, n2);
        let b2 = b1.skip(n2);
        let (g3, n3) = <RLE<String, u16> as NetworkAdapter>::dec(b2)->Ok_0;
        <RLE<String, u16> as NetworkAdapter>::lemma_enc_dec(b2, g3, n3);
        let b3 = b2.skip(n3);
        let (g4, n4) = <u32 as NetworkAdapter>::dec(b3)->Ok_0;
        <u32 as NetworkAdapter>::lemma_enc_dec(b3, g4, n4);
        let b4 = b3.skip(n4);
        let (g5, n5) = <RLE<Vec<u32>, u16> as NetworkAdapter>::dec(b4)->Ok_0;
        <RLE<Vec<u32>, u16> as NetworkAdapter>::lemma_enc_dec(b4, g5, n5);
        let b5 = b4.skip(n5);
        let (g6, n6) = <RLE<Vec<u32>, u16> as NetworkAdapter>::dec(b5)->Ok_0;
        <RLE<Vec<u32>, u16> as NetworkAdapter>::lemma_enc_dec(b5, g6, n6);
        let b6 = b5.skip(n6);
        let (g7, n7) = <bool as NetworkAdapter>::dec(b6)->Ok_0;
        <bool as NetworkAdapter>::lemma_enc_dec(b6, g7, n7);
        let b7 = b6.skip(n7);
        let (g8, n8) = <bool as NetworkAdapter>::dec(b7)->Ok_0;
        <bool as NetworkAdapter>::lemma_enc_dec(b7, g8, n8);
        let b8 = b7.skip(n8);
        let (g9, n9) = <bool as NetworkAdapter>::dec(b8)->Ok_0;
        <bool as NetworkAdapter>::lemma_enc_dec(b8, g9, n9);
        lemma_skip_skip(b, n1, n2);
        assert(b2 == b.skip(n1 + n2));
        lemma_skip_skip(b, n1 + n2, n3);
        assert(b3 == b.skip(n1 + n2 + n3));
        lemma_skip_skip(b, n1 + n2 + n3, n4);
        assert(b4 == b.skip(n1 + n2 + n3 + n4));
        lemma_skip_skip(b, n1 + n2 + n3 + n4, n5);
        assert(b5 == b.skip(n1 + n2 + n3 + n4 + n5));
        lemma_skip_skip(b, n1 + n2 + n3 + n4 + n5, n6);
        assert(b6 == b.skip(n1 + n2 + n3 + n4 + n5 + n6));
        lemma_skip_skip(b, n1 + n2 + n3 + n4 + n5 + n6, n7);
        assert(b7 == b.skip(n1 + n2 + n3 + n4 + n5 + n6 + n7));
        lemma_skip_skip(b, n1 + n2 + n3 + n4 + n5 + n6 + n7, n8);
        assert(b8 == b.skip(n1 + n2 + n3 + n4 + n5 + n6 + n7 + n8));
        assert(n == n1 + n2 + n3 + n4 + n5 + n6 + n7 + n8 + n9);
        assert(m.id == g1);
        assert(m.name == g2);
        assert(m.description == g3);
        assert(m.category == g4);
        assert(m.requirements == g5);
        assert(m.rewards == g6);
        assert(m.completed == g7);
        assert(m.item_of_choice == g8);
        assert(m.repeatable == g9);
        if Self::canon(b) {
            let s1 = n1;
            let s2 = s1 + n2;
            let s3 = s2 + n3;
            let s4 = s3 + n4;
            let s5 = s4 + n5;
            let s6 = s5 + n6;
            let s7 = s6 + n7;
            let s8 = s7 + n8;
            let s9 = s8 + n9;
            let q1 = <RLE<String, u16> as NetworkAdapter>::enc_model(m.id);
            assert(q1 == b.take(s1));
            lemma_take_concat(b, s1, n2);
            let q2 = q1 + <RLE<String, u16> as NetworkAdapter>::enc_model(m.name);
            assert(q2 == b.take(s2));
            lemma_take_concat(b, s2, n3);
            let q3 = q2 + <RLE<String, u16> as NetworkAdapter>::enc_model(m.description);
            assert(q3 == b.take(s3));
            lemma_take_concat(b, s3, n4);
            let q4 = q3 + <u32 as NetworkAdapter>::enc_model(m.category);
            assert(q4 == b.take(s4));
            lemma_take_concat(b, s4, n5);
            let q5 = q4 + <RLE<Vec<u32>, u16> as NetworkAdapter>::enc_model(m.requirements);
            assert(q5 == b.take(s5));
            lemma_take_concat(b, s5, n6);
            let q6 = q5 + <RLE<Vec<u32>, u16> as NetworkAdapter>::enc_model(m.rewards);
            assert(q6 == b.take(s6));
            lemma_take_concat(b, s6, n7);
            let q7 = q6 + <bool as NetworkAdapter>::enc_model(m.completed);
            assert(q7 == b.take(s7));
            lemma_take_concat(b, s7, n8);
            let q8 = q7 + <bool as NetworkAdapter>::enc_model(m.item_of_choice);
            assert(q8 == b.take(s8));
            lemma_take_concat(b, s8, n9);
            let q9 = q8 + <bool as NetworkAdapter>::enc_model(m.repeatable);
            assert(q9 == b.take(s9));
            assert(Self::enc_model(m) == q9);
            assert(Self::enc_model(m) == b.take(n));
        }
    }
}

} // verus!
