//! Messages sent by the game client, with their byte adapters.

use crate::adapters::primitives::{F32Bits, F64Bits};
use crate::adapters::rle::RLE;
use crate::adapters::{lemma_seq_assoc, lemma_skip_concat, lemma_skip_skip, lemma_take_concat, Error, NetworkAdapter, Reader};
use crate::gamedata::basic::{GroundTileData, MoveRecord, ObjectData, ObjectStatusData, QuestData, SlotObjectData, TradeItem, WorldPosData};
use crate::gamedata::basic::{ObjectDataModel, ObjectStatusDataModel, QuestDataModel};
use crate::gamedata::stat::{StatData, StatDataModel};
use vstd::prelude::*;

verus! {

#[verifier::ext_equal]
#[derive(Debug, PartialEq, Clone)]
pub struct AcceptTrade {
    pub my_offer: RLE<Vec<bool>, u16>,
    pub your_offer: RLE<Vec<bool>, u16>,
}

/// The mathematical model of a decoded `AcceptTrade`.
#[verifier::ext_equal]
pub struct AcceptTradeModel {
    pub my_offer: Seq<bool>,
    pub your_offer: Seq<bool>,
}

impl NetworkAdapter for AcceptTrade {
    type Model = AcceptTradeModel;

    open spec fn model(self) -> AcceptTradeModel {
        AcceptTradeModel {
            my_offer: self.my_offer.model(),
            your_offer: self.your_offer.model(),
        }
    }

    open spec fn enc_model(m: AcceptTradeModel) -> Seq<u8> {
        <RLE<Vec<bool>, u16> as NetworkAdapter>::enc_model(m.my_offer) + <RLE<Vec<bool>, u16> as NetworkAdapter>::enc_model(m.your_offer)
    }

    open spec fn valid_model(m: AcceptTradeModel) -> bool {
        <RLE<Vec<bool>, u16> as NetworkAdapter>::valid_model(m.my_offer) && <RLE<Vec<bool>, u16> as NetworkAdapter>::valid_model(m.your_offer)
    }

    closed spec fn dec(b: Seq<u8>) -> Result<(AcceptTradeModel, int), Error> {
        match <RLE<Vec<bool>, u16> as NetworkAdapter>::dec(b) {
            Ok((g1, n1)) => {
                let b1 = b.skip(n1);
                match <RLE<Vec<bool>, u16> as NetworkAdapter>::dec(b1) {
                    Ok((g2, n2)) => {
                        Ok((AcceptTradeModel { my_offer: g1, your_offer: g2 }, n1 + n2))
                    },
                    Err(e) => Err(e),
                }
            },
            Err(e) => Err(e),
        }
    }

    closed spec fn canon(b: Seq<u8>) -> bool {
        match <RLE<Vec<bool>, u16> as NetworkAdapter>::dec(b) {
            Ok((g1, n1)) => <RLE<Vec<bool>, u16> as NetworkAdapter>::canon(b) && {
                let b1 = b.skip(n1);
                match <RLE<Vec<bool>, u16> as NetworkAdapter>::dec(b1) {
                    Ok((g2, n2)) => <RLE<Vec<bool>, u16> as NetworkAdapter>::canon(b1) && {
                        true
                    },
                    Err(e) => true,
                }
            },
            Err(e) => true,
        }
    }

    fn get_be(r: &mut Reader) -> (res: Result<AcceptTrade, Error>) {
        let ghost b = old(r).remaining_bytes();
        let save = r.position();
        let x1 = match <RLE<Vec<bool>, u16> as NetworkAdapter>::get_be(r) {
            Ok(v) => v,
            Err(e) => {
                r.seek(save);
                return Err(e);
            },
        };
        let x2 = match <RLE<Vec<bool>, u16> as NetworkAdapter>::get_be(r) {
            Ok(v) => v,
            Err(e) => {
                r.seek(save);
                return Err(e);
            },
        };
        proof {
            let (g1, n1) = <RLE<Vec<bool>, u16> as NetworkAdapter>::dec(b)->Ok_0;
            let b1 = b.skip(n1);
            let (g2, n2) = <RLE<Vec<bool>, u16> as NetworkAdapter>::dec(b1)->Ok_0;
            lemma_skip_skip(b, n1, n2);
            assert(b1.skip(n2) == b.skip(n1 + n2));
        }
        Ok(AcceptTrade { my_offer: x1, your_offer: x2 })
    }

    fn put_be(self, out: &mut Vec<u8>) -> (res: Result<(), Error>) {
        let ghost m = self.model();
        let AcceptTrade { my_offer, your_offer } = self;
        let ghost e1 = <RLE<Vec<bool>, u16> as NetworkAdapter>::enc_model(m.my_offer);
        let ghost e2 = <RLE<Vec<bool>, u16> as NetworkAdapter>::enc_model(m.your_offer);
        let ghost p1 = e1;
        let ghost p2 = p1 + e2;
        let mut tmp: Vec<u8> = Vec::new();
        let ghost o0 = tmp@;
        match my_offer.put_be(&mut tmp) {
            Ok(()) => {},
            Err(e) => {
                return Err(e);
            },
        };
        let ghost o1 = tmp@;
        proof {
            assert(my_offer.model() == m.my_offer);
            assert(o1 == o0 + p1);
        }
        match your_offer.put_be(&mut tmp) {
            Ok(()) => {},
            Err(e) => {
                return Err(e);
            },
        };
        let ghost o2 = tmp@;
        proof {
            assert(your_offer.model() == m.your_offer);
            lemma_seq_assoc(o0, p1, e2);
            assert(o2 == o0 + p2);
        }
        out.append(&mut tmp);
        proof {
            assert(Self::enc_model(m) == p2);
            assert(o0 + p2 =~= p2);
            assert(out@ == old(out)@ + Self::enc_model(m));
        }
        Ok(())
    }

    proof fn lemma_dec_enc(m: AcceptTradeModel, rest: Seq<u8>) {
        let e1 = <RLE<Vec<bool>, u16> as NetworkAdapter>::enc_model(m.my_offer);
        let e2 = <RLE<Vec<bool>, u16> as NetworkAdapter>::enc_model(m.your_offer);
        let p1 = e1;
        let p2 = p1 + e2;
        assert(Self::enc_model(m) == p2);
        let r2 = rest;
        let r1 = e2 + r2;
        let b = Self::enc_model(m) + rest;
        lemma_seq_assoc(p1, e2, r2);
        assert(p2 + r2 == p1 + r1);
        assert(b == e1 + r1);
        <RLE<Vec<bool>, u16> as NetworkAdapter>::lemma_dec_enc(m.my_offer, r1);
        <RLE<Vec<bool>, u16> as NetworkAdapter>::lemma_dec_enc(m.your_offer, r2);
        let c1 = b.skip(e1.len() as int);
        lemma_skip_concat(e1, r1);
        assert(c1 == r1);
        assert(Self::enc_model(m).len() == e1.len() + e2.len());
        assert(AcceptTradeModel { my_offer: m.my_offer, your_offer: m.your_offer } =~= m);
    }

    proof fn lemma_enc_dec(b: Seq<u8>, m: AcceptTradeModel, n: int) {
        let (g1, n1) = <RLE<Vec<bool>, u16> as NetworkAdapter>::dec(b)->Ok_0;
        <RLE<Vec<bool>, u16> as NetworkAdapter>::lemma_enc_dec(b, g1, n1);
        let b1 = b.skip(n1);
        let (g2, n2) = <RLE<Vec<bool>, u16> as NetworkAdapter>::dec(b1)->Ok_0;
        <RLE<Vec<bool>, u16> as NetworkAdapter>::lemma_enc_dec(b1, g2, n2);
        assert(n == n1 + n2);
        assert(m.my_offer == g1);
        assert(m.your_offer == g2);
        if Self::canon(b) {
            let s1 = n1;
            let s2 = s1 + n2;
            let q1 = <RLE<Vec<bool>, u16> as NetworkAdapter>::enc_model(m.my_offer);
            assert(q1 == b.take(s1));
            lemma_take_concat(b, s1, n2);
            let q2 = q1 + <RLE<Vec<bool>, u16> as NetworkAdapter>::enc_model(m.your_offer);
            assert(q2 == b.take(s2));
            assert(Self::enc_model(m) == q2);
            assert(Self::enc_model(m) == b.take(n));
        }
    }
}

#[verifier::ext_equal]
#[derive(Debug, PartialEq, Clone)]
pub struct ActivePetUpdateRequest {
    pub command_type: u8,
    pub instance_id: u32,
}

impl NetworkAdapter for ActivePetUpdateRequest {
    type Model = ActivePetUpdateRequest;

    open spec fn model(self) -> ActivePetUpdateRequest {
        self
    }

    open spec fn enc_model(m: ActivePetUpdateRequest) -> Seq<u8> {
        <u8 as NetworkAdapter>::enc_model(m.command_type) + <u32 as NetworkAdapter>::enc_model(m.instance_id)
    }

    open spec fn valid_model(m: ActivePetUpdateRequest) -> bool {
        <u8 as NetworkAdapter>::valid_model(m.command_type) && <u32 as NetworkAdapter>::valid_model(m.instance_id)
    }

    closed spec fn dec(b: Seq<u8>) -> Result<(ActivePetUpdateRequest, int), Error> {
        match <u8 as NetworkAdapter>::dec(b) {
            Ok((g1, n1)) => {
                let b1 = b.skip(n1);
                match <u32 as NetworkAdapter>::dec(b1) {
                    Ok((g2, n2)) => {
                        Ok((ActivePetUpdateRequest { command_type: g1, instance_id: g2 }, n1 + n2))
                    },
                    Err(e) => Err(e),
                }
            },
            Err(e) => Err(e),
        }
    }

    closed spec fn canon(b: Seq<u8>) -> bool {
        match <u8 as NetworkAdapter>::dec(b) {
            Ok((g1, n1)) => <u8 as NetworkAdapter>::canon(b) && {
                let b1 = b.skip(n1);
                match <u32 as NetworkAdapter>::dec(b1) {
                    Ok((g2, n2)) => <u32 as NetworkAdapter>::canon(b1) && {
                        true
                    },
                    Err(e) => true,
                }
            },
            Err(e) => true,
        }
    }

    fn get_be(r: &mut Reader) -> (res: Result<ActivePetUpdateRequest, Error>) {
        let ghost b = old(r).remaining_bytes();
        let save = r.position();
        let x1 = match <u8 as NetworkAdapter>::get_be(r) {
            Ok(v) => v,
            Err(e) => {
                r.seek(save);
                return Err(e);
            },
        };
        let x2 = match <u32 as NetworkAdapter>::get_be(r) {
            Ok(v) => v,
            Err(e) => {
                r.seek(save);
                return Err(e);
            },
        };
        proof {
            let (g1, n1) = <u8 as NetworkAdapter>::dec(b)->Ok_0;
            let b1 = b.skip(n1);
            let (g2, n2) = <u32 as NetworkAdapter>::dec(b1)->Ok_0;
            lemma_skip_skip(b, n1, n2);
            assert(b1.skip(n2) == b.skip(n1 + n2));
        }
        Ok(ActivePetUpdateRequest { command_type: x1, instance_id: x2 })
    }

    fn put_be(self, out: &mut Vec<u8>) -> (res: Result<(), Error>) {
        let ghost m = self.model();
        let ActivePetUpdateRequest { command_type, instance_id } = self;
        let ghost e1 = <u8 as NetworkAdapter>::enc_model(m.command_type);
        let ghost e2 = <u32 as NetworkAdapter>::enc_model(m.instance_id);
        let ghost p1 = e1;
        let ghost p2 = p1 + e2;
        let mut tmp: Vec<u8> = Vec::new();
        let ghost o0 = tmp@;
        match command_type.put_be(&mut tmp) {
            Ok(()) => {},
            Err(e) => {
                return Err(e);
            },
        };
        let ghost o1 = tmp@;
        proof {
            assert(command_type == m.command_type);
            assert(o1 == o0 + p1);
        }
        match instance_id.put_be(&mut tmp) {
            Ok(()) => {},
            Err(e) => {
                return Err(e);
            },
        };
        let ghost o2 = tmp@;
        proof {
            assert(instance_id == m.instance_id);
            lemma_seq_assoc(o0, p1, e2);
            assert(o2 == o0 + p2);
        }
        out.append(&mut tmp);
        proof {
            assert(Self::enc_model(m) == p2);
            assert(o0 + p2 =~= p2);
            assert(out@ == old(out)@ + Self::enc_model(m));
        }
        Ok(())
    }

    proof fn lemma_dec_enc(m: ActivePetUpdateRequest, rest: Seq<u8>) {
        let e1 = <u8 as NetworkAdapter>::enc_model(m.command_type);
        let e2 = <u32 as NetworkAdapter>::enc_model(m.instance_id);
        let p1 = e1;
        let p2 = p1 + e2;
        assert(Self::enc_model(m) == p2);
        let r2 = rest;
        let r1 = e2 + r2;
        let b = Self::enc_model(m) + rest;
        lemma_seq_assoc(p1, e2, r2);
        assert(p2 + r2 == p1 + r1);
        assert(b == e1 + r1);
        <u8 as NetworkAdapter>::lemma_dec_enc(m.command_type, r1);
        <u32 as NetworkAdapter>::lemma_dec_enc(m.instance_id, r2);
        let c1 = b.skip(e1.len() as int);
        lemma_skip_concat(e1, r1);
        assert(c1 == r1);
        assert(Self::enc_model(m).len() == e1.len() + e2.len());
        assert(ActivePetUpdateRequest { command_type: m.command_type, instance_id: m.instance_id } =~= m);
    }

    proof fn lemma_enc_dec(b: Seq<u8>, m: ActivePetUpdateRequest, n: int) {
        let (g1, n1) = <u8 as NetworkAdapter>::dec(b)->Ok_0;
        <u8 as NetworkAdapter>::lemma_enc_dec(b, g1, n1);
        let b1 = b.skip(n1);
        let (g2, n2) = <u32 as NetworkAdapter>::dec(b1)->Ok_0;
        <u32 as NetworkAdapter>::lemma_enc_dec(b1, g2, n2);
        assert(n == n1 + n2);
        assert(m.command_type == g1);
        assert(m.instance_id == g2);
        if Self::canon(b) {
            let s1 = n1;
            let s2 = s1 + n2;
            let q1 = <u8 as NetworkAdapter>::enc_model(m.command_type);
            assert(q1 == b.take(s1));
            lemma_take_concat(b, s1, n2);
            let q2 = q1 + <u32 as NetworkAdapter>::enc_model(m.instance_id);
            assert(q2 == b.take(s2));
            assert(Self::enc_model(m) == q2);
            assert(Self::enc_model(m) == b.take(n));
        }
    }
}

#[verifier::ext_equal]
#[derive(Debug, PartialEq, Clone)]
pub struct AoeAck {
    pub time: u32,
    pub pos: WorldPosData,
}

impl NetworkAdapter for AoeAck {
    type Model = AoeAck;

    open spec fn model(self) -> AoeAck {
        self
    }

    open spec fn enc_model(m: AoeAck) -> Seq<u8> {
        <u32 as NetworkAdapter>::enc_model(m.time) + <WorldPosData as NetworkAdapter>::enc_model(m.pos)
    }

    open spec fn valid_model(m: AoeAck) -> bool {
        <u32 as NetworkAdapter>::valid_model(m.time) && <WorldPosData as NetworkAdapter>::valid_model(m.pos)
    }

    closed spec fn dec(b: Seq<u8>) -> Result<(AoeAck, int), Error> {
        match <u32 as NetworkAdapter>::dec(b) {
            Ok((g1, n1)) => {
                let b1 = b.skip(n1);
                match <WorldPosData as NetworkAdapter>::dec(b1) {
                    Ok((g2, n2)) => {
                        Ok((AoeAck { time: g1, pos: g2 }, n1 + n2))
                    },
                    Err(e) => Err(e),
                }
            },
            Err(e) => Err(e),
        }
    }

    closed spec fn canon(b: Seq<u8>) -> bool {
        match <u32 as NetworkAdapter>::dec(b) {
            Ok((g1, n1)) => <u32 as NetworkAdapter>::canon(b) && {
                let b1 = b.skip(n1);
                match <WorldPosData as NetworkAdapter>::dec(b1) {
                    Ok((g2, n2)) => <WorldPosData as NetworkAdapter>::canon(b1) && {
                        true
                    },
                    Err(e) => true,
                }
            },
            Err(e) => true,
        }
    }

    fn get_be(r: &mut Reader) -> (res: Result<AoeAck, Error>) {
        let ghost b = old(r).remaining_bytes();
        let save = r.position();
        let x1 = match <u32 as NetworkAdapter>::get_be(r) {
            Ok(v) => v,
            Err(e) => {
                r.seek(save);
                return Err(e);
            },
        };
        let x2 = match <WorldPosData as NetworkAdapter>::get_be(r) {
            Ok(v) => v,
            Err(e) => {
                r.seek(save);
                return Err(e);
            },
        };
        proof {
            let (g1, n1) = <u32 as NetworkAdapter>::dec(b)->Ok_0;
            let b1 = b.skip(n1);
            let (g2, n2) = <WorldPosData as NetworkAdapter>::dec(b1)->Ok_0;
            lemma_skip_skip(b, n1, n2);
            assert(b1.skip(n2) == b.skip(n1 + n2));
        }
        Ok(AoeAck { time: x1, pos: x2 })
    }

    fn put_be(self, out: &mut Vec<u8>) -> (res: Result<(), Error>) {
        let ghost m = self.model();
        let AoeAck { time, pos } = self;
        let ghost e1 = <u32 as NetworkAdapter>::enc_model(m.time);
        let ghost e2 = <WorldPosData as NetworkAdapter>::enc_model(m.pos);
        let ghost p1 = e1;
        let ghost p2 = p1 + e2;
        let mut tmp: Vec<u8> = Vec::new();
        let ghost o0 = tmp@;
        match time.put_be(&mut tmp) {
            Ok(()) => {},
            Err(e) => {
                return Err(e);
            },
        };
        let ghost o1 = tmp@;
        proof {
            assert(time == m.time);
            assert(o1 == o0 + p1);
        }
        match pos.put_be(&mut tmp) {
            Ok(()) => {},
            Err(e) => {
                return Err(e);
            },
        };
        let ghost o2 = tmp@;
        proof {
            assert(pos == m.pos);
            lemma_seq_assoc(o0, p1, e2);
            assert(o2 == o0 + p2);
        }
        out.append(&mut tmp);
        proof {
            assert(Self::enc_model(m) == p2);
            assert(o0 + p2 =~= p2);
            assert(out@ == old(out)@ + Self::enc_model(m));
        }
        Ok(())
    }

    proof fn lemma_dec_enc(m: AoeAck, rest: Seq<u8>) {
        let e1 = <u32 as NetworkAdapter>::enc_model(m.time);
        let e2 = <WorldPosData as NetworkAdapter>::enc_model(m.pos);
        let p1 = e1;
        let p2 = p1 + e2;
        assert(Self::enc_model(m) == p2);
        let r2 = rest;
        let r1 = e2 + r2;
        let b = Self::enc_model(m) + rest;
        lemma_seq_assoc(p1, e2, r2);
        assert(p2 + r2 == p1 + r1);
        assert(b == e1 + r1);
        <u32 as NetworkAdapter>::lemma_dec_enc(m.time, r1);
        <WorldPosData as NetworkAdapter>::lemma_dec_enc(m.pos, r2);
        let c1 = b.skip(e1.len() as int);
        lemma_skip_concat(e1, r1);
        assert(c1 == r1);
        assert(Self::enc_model(m).len() == e1.len() + e2.len());
        assert(AoeAck { time: m.time, pos: m.pos } =~= m);
    }

    proof fn lemma_enc_dec(b: Seq<u8>, m: AoeAck, n: int) {
        let (g1, n1) = <u32 as NetworkAdapter>::dec(b)->Ok_0;
        <u32 as NetworkAdapter>::lemma_enc_dec(b, g1, n1);
        let b1 = b.skip(n1);
        let (g2, n2) = <WorldPosData as NetworkAdapter>::dec(b1)->Ok_0;
        <WorldPosData as NetworkAdapter>::lemma_enc_dec(b1, g2, n2);
        assert(n == n1 + n2);
        assert(m.time == g1);
        assert(m.pos == g2);
        if Self::canon(b) {
            let s1 = n1;
            let s2 = s1 + n2;
            let q1 = <u32 as NetworkAdapter>::enc_model(m.time);
            assert(q1 == b.take(s1));
            lemma_take_concat(b, s1, n2);
            let q2 = q1 + <WorldPosData as NetworkAdapter>::enc_model(m.pos);
            assert(q2 == b.take(s2));
            assert(Self::enc_model(m) == q2);
            assert(Self::enc_model(m) == b.take(n));
        }
    }
}

#[verifier::ext_equal]
#[derive(Debug, PartialEq, Clone)]
pub struct Buy {
    pub object_id: u32,
    pub quantity: u32,
}

impl NetworkAdapter for Buy {
    type Model = Buy;

    open spec fn model(self) -> Buy {
        self
    }

    open spec fn enc_model(m: Buy) -> Seq<u8> {
        <u32 as NetworkAdapter>::enc_model(m.object_id) + <u32 as NetworkAdapter>::enc_model(m.quantity)
    }

    open spec fn valid_model(m: Buy) -> bool {
        <u32 as NetworkAdapter>::valid_model(m.object_id) && <u32 as NetworkAdapter>::valid_model(m.quantity)
    }

    closed spec fn dec(b: Seq<u8>) -> Result<(Buy, int), Error> {
        match <u32 as NetworkAdapter>::dec(b) {
            Ok((g1, n1)) => {
                let b1 = b.skip(n1);
                match <u32 as NetworkAdapter>::dec(b1) {
                    Ok((g2, n2)) => {
                        Ok((Buy { object_id: g1, quantity: g2 }, n1 + n2))
                    },
                    Err(e) => Err(e),
                }
            },
            Err(e) => Err(e),
        }
    }

    closed spec fn canon(b: Seq<u8>) -> bool {
        match <u32 as NetworkAdapter>::dec(b) {
            Ok((g1, n1)) => <u32 as NetworkAdapter>::canon(b) && {
                let b1 = b.skip(n1);
                match <u32 as NetworkAdapter>::dec(b1) {
                    Ok((g2, n2)) => <u32 as NetworkAdapter>::canon(b1) && {
                        true
                    },
                    Err(e) => true,
                }
            },
            Err(e) => true,
        }
    }

    fn get_be(r: &mut Reader) -> (res: Result<Buy, Error>) {
        let ghost b = old(r).remaining_bytes();
        let save = r.position();
        let x1 = match <u32 as NetworkAdapter>::get_be(r) {
            Ok(v) => v,
            Err(e) => {
                r.seek(save);
                return Err(e);
            },
        };
        let x2 = match <u32 as NetworkAdapter>::get_be(r) {
            Ok(v) => v,
            Err(e) => {
                r.seek(save);
                return Err(e);
            },
        };
        proof {
            let (g1, n1) = <u32 as NetworkAdapter>::dec(b)->Ok_0;
            let b1 = b.skip(n1);
            let (g2, n2) = <u32 as NetworkAdapter>::dec(b1)->Ok_0;
            lemma_skip_skip(b, n1, n2);
            assert(b1.skip(n2) == b.skip(n1 + n2));
        }
        Ok(Buy { object_id: x1, quantity: x2 })
    }

    fn put_be(self, out: &mut Vec<u8>) -> (res: Result<(), Error>) {
        let ghost m = self.model();
        let Buy { object_id, quantity } = self;
        let ghost e1 = <u32 as NetworkAdapter>::enc_model(m.object_id);
        let ghost e2 = <u32 as NetworkAdapter>::enc_model(m.quantity);
        let ghost p1 = e1;
        let ghost p2 = p1 + e2;
        let mut tmp: Vec<u8> = Vec::new();
        let ghost o0 = tmp@;
        match object_id.put_be(&mut tmp) {
            Ok(()) => {},
            Err(e) => {
                return Err(e);
            },
        };
        let ghost o1 = tmp@;
        proof {
            assert(object_id == m.object_id);
            assert(o1 == o0 + p1);
        }
        match quantity.put_be(&mut tmp) {
            Ok(()) => {},
            Err(e) => {
                return Err(e);
            },
        };
        let ghost o2 = tmp@;
        proof {
            assert(quantity == m.quantity);
            lemma_seq_assoc(o0, p1, e2);
            assert(o2 == o0 + p2);
        }
        out.append(&mut tmp);
        proof {
            assert(Self::enc_model(m) == p2);
            assert(o0 + p2 =~= p2);
            assert(out@ == old(out)@ + Self::enc_model(m));
        }
        Ok(())
    }

    proof fn lemma_dec_enc(m: Buy, rest: Seq<u8>) {
        let e1 = <u32 as NetworkAdapter>::enc_model(m.object_id);
        let e2 = <u32 as NetworkAdapter>::enc_model(m.quantity);
        let p1 = e1;
        let p2 = p1 + e2;
        assert(Self::enc_model(m) == p2);
        let r2 = rest;
        let r1 = e2 + r2;
        let b = Self::enc_model(m) + rest;
        lemma_seq_assoc(p1, e2, r2);
        assert(p2 + r2 == p1 + r1);
        assert(b == e1 + r1);
        <u32 as NetworkAdapter>::lemma_dec_enc(m.object_id, r1);
        <u32 as NetworkAdapter>::lemma_dec_enc(m.quantity, r2);
        let c1 = b.skip(e1.len() as int);
        lemma_skip_concat(e1, r1);
        assert(c1 == r1);
        assert(Self::enc_model(m).len() == e1.len() + e2.len());
        assert(Buy { object_id: m.object_id, quantity: m.quantity } =~= m);
    }

    proof fn lemma_enc_dec(b: Seq<u8>, m: Buy, n: int) {
        let (g1, n1) = <u32 as NetworkAdapter>::dec(b)->Ok_0;
        <u32 as NetworkAdapter>::lemma_enc_dec(b, g1, n1);
        let b1 = b.skip(n1);
        let (g2, n2) = <u32 as NetworkAdapter>::dec(b1)->Ok_0;
        <u32 as NetworkAdapter>::lemma_enc_dec(b1, g2, n2);
        assert(n == n1 + n2);
        assert(m.object_id == g1);
        assert(m.quantity == g2);
        if Self::canon(b) {
            let s1 = n1;
            let s2 = s1 + n2;
            let q1 = <u32 as NetworkAdapter>::enc_model(m.object_id);
            assert(q1 == b.take(s1));
            lemma_take_concat(b, s1, n2);
            let q2 = q1 + <u32 as NetworkAdapter>::enc_model(m.quantity);
            assert(q2 == b.take(s2));
            assert(Self::enc_model(m) == q2);
            assert(Self::enc_model(m) == b.take(n));
        }
    }
}

#[verifier::ext_equal]
#[derive(Debug, PartialEq, Clone)]
pub struct CancelTrade {
}

impl NetworkAdapter for CancelTrade {
    type Model = CancelTrade;

    open spec fn model(self) -> CancelTrade {
        self
    }

    open spec fn enc_model(m: CancelTrade) -> Seq<u8> {
        Seq::empty()
    }

    open spec fn valid_model(m: CancelTrade) -> bool {
        true
    }

    closed spec fn dec(b: Seq<u8>) -> Result<(CancelTrade, int), Error> {
        Ok((CancelTrade {  }, 0))
    }

    closed spec fn canon(b: Seq<u8>) -> bool {
        true
    }

    fn get_be(r: &mut Reader) -> (res: Result<CancelTrade, Error>) {
        let ghost b = old(r).remaining_bytes();
        proof {
            assert(b.skip(0) =~= b);
        }
        Ok(CancelTrade {  })
    }

    fn put_be(self, out: &mut Vec<u8>) -> (res: Result<(), Error>) {
        let ghost m = self.model();
        let CancelTrade {  } = self;
        let mut tmp: Vec<u8> = Vec::new();
        let ghost o0 = tmp@;
        out.append(&mut tmp);
        proof {
            assert(out@ =~= old(out)@ + Self::enc_model(m));
        }
        Ok(())
    }

    proof fn lemma_dec_enc(m: CancelTrade, rest: Seq<u8>) {
        assert(m =~= CancelTrade {  });
    }

    proof fn lemma_enc_dec(b: Seq<u8>, m: CancelTrade, n: int) {
        assert(m =~= CancelTrade {  });
        assert(Self::enc_model(m) =~= b.take(0));
    }
}

#[verifier::ext_equal]
#[derive(Debug, PartialEq, Clone)]
pub struct ChangeGuildRank {
    pub name: RLE<String, u16>,
    pub guild_rank: u32,
}

/// The mathematical model of a decoded `ChangeGuildRank`.
#[verifier::ext_equal]
pub struct ChangeGuildRankModel {
    pub name: Seq<char>,
    pub guild_rank: u32,
}

impl NetworkAdapter for ChangeGuildRank {
    type Model = ChangeGuildRankModel;

    open spec fn model(self) -> ChangeGuildRankModel {
        ChangeGuildRankModel {
            name: self.name.model(),
            guild_rank: self.guild_rank.model(),
        }
    }

    open spec fn enc_model(m: ChangeGuildRankModel) -> Seq<u8> {
        <RLE<String, u16> as NetworkAdapter>::enc_model(m.name) + <u32 as NetworkAdapter>::enc_model(m.guild_rank)
    }

    open spec fn valid_model(m: ChangeGuildRankModel) -> bool {
        <RLE<String, u16> as NetworkAdapter>::valid_model(m.name) && <u32 as NetworkAdapter>::valid_model(m.guild_rank)
    }

    closed spec fn dec(b: Seq<u8>) -> Result<(ChangeGuildRankModel, int), Error> {
        match <RLE<String, u16> as NetworkAdapter>::dec(b) {
            Ok((g1, n1)) => {
                let b1 = b.skip(n1);
                match <u32 as NetworkAdapter>::dec(b1) {
                    Ok((g2, n2)) => {
                        Ok((ChangeGuildRankModel { name: g1, guild_rank: g2 }, n1 + n2))
                    },
                    Err(e) => Err(e),
                }
            },
            Err(e) => Err(e),
        }
    }

    closed spec fn canon(b: Seq<u8>) -> bool {
        match <RLE<String, u16> as NetworkAdapter>::dec(b) {
            Ok((g1, n1)) => <RLE<String, u16> as NetworkAdapter>::canon(b) && {
                let b1 = b.skip(n1);
                match <u32 as NetworkAdapter>::dec(b1) {
                    Ok((g2, n2)) => <u32 as NetworkAdapter>::canon(b1) && {
                        true
                    },
                    Err(e) => true,
                }
            },
            Err(e) => true,
        }
    }

    fn get_be(r: &mut Reader) -> (res: Result<ChangeGuildRank, Error>) {
        let ghost b = old(r).remaining_bytes();
        let save = r.position();
        let x1 = match <RLE<String, u16> as NetworkAdapter>::get_be(r) {
            Ok(v) => v,
            Err(e) => {
                r.seek(save);
                return Err(e);
            },
        };
        let x2 = match <u32 as NetworkAdapter>::get_be(r) {
            Ok(v) => v,
            Err(e) => {
                r.seek(save);
                return Err(e);
            },
        };
        proof {
            let (g1, n1) = <RLE<String, u16> as NetworkAdapter>::dec(b)->Ok_0;
            let b1 = b.skip(n1);
            let (g2, n2) = <u32 as NetworkAdapter>::dec(b1)->Ok_0;
            lemma_skip_skip(b, n1, n2);
            assert(b1.skip(n2) == b.skip(n1 + n2));
        }
        Ok(ChangeGuildRank { name: x1, guild_rank: x2 })
    }

    fn put_be(self, out: &mut Vec<u8>) -> (res: Result<(), Error>) {
        let ghost m = self.model();
        let ChangeGuildRank { name, guild_rank } = self;
        let ghost e1 = <RLE<String, u16> as NetworkAdapter>::enc_model(m.name);
        let ghost e2 = <u32 as NetworkAdapter>::enc_model(m.guild_rank);
        let ghost p1 = e1;
        let ghost p2 = p1 + e2;
        let mut tmp: Vec<u8> = Vec::new();
        let ghost o0 = tmp@;
        match name.put_be(&mut tmp) {
            Ok(()) => {},
            Err(e) => {
                return Err(e);
            },
        };
        let ghost o1 = tmp@;
        proof {
            assert(name.model() == m.name);
            assert(o1 == o0 + p1);
        }
        match guild_rank.put_be(&mut tmp) {
            Ok(()) => {},
            Err(e) => {
                return Err(e);
            },
        };
        let ghost o2 = tmp@;
        proof {
            assert(guild_rank.model() == m.guild_rank);
            lemma_seq_assoc(o0, p1, e2);
            assert(o2 == o0 + p2);
        }
        out.append(&mut tmp);
        proof {
            assert(Self::enc_model(m) == p2);
            assert(o0 + p2 =~= p2);
            assert(out@ == old(out)@ + Self::enc_model(m));
        }
        Ok(())
    }

    proof fn lemma_dec_enc(m: ChangeGuildRankModel, rest: Seq<u8>) {
        let e1 = <RLE<String, u16> as NetworkAdapter>::enc_model(m.name);
        let e2 = <u32 as NetworkAdapter>::enc_model(m.guild_rank);
        let p1 = e1;
        let p2 = p1 + e2;
        assert(Self::enc_model(m) == p2);
        let r2 = rest;
        let r1 = e2 + r2;
        let b = Self::enc_model(m) + rest;
        lemma_seq_assoc(p1, e2, r2);
        assert(p2 + r2 == p1 + r1);
        assert(b == e1 + r1);
        <RLE<String, u16> as NetworkAdapter>::lemma_dec_enc(m.name, r1);
        <u32 as NetworkAdapter>::lemma_dec_enc(m.guild_rank, r2);
        let c1 = b.skip(e1.len() as int);
        lemma_skip_concat(e1, r1);
        assert(c1 == r1);
        assert(Self::enc_model(m).len() == e1.len() + e2.len());
        assert(ChangeGuildRankModel { name: m.name, guild_rank: m.guild_rank } =~= m);
    }

    proof fn lemma_enc_dec(b: Seq<u8>, m: ChangeGuildRankModel, n: int) {
        let (g1, n1) = <RLE<String, u16> as NetworkAdapter>::dec(b)->Ok_0;
        <RLE<String, u16> as NetworkAdapter>::lemma_enc_dec(b, g1, n1);
        let b1 = b.skip(n1);
        let (g2, n2) = <u32 as NetworkAdapter>::dec(b1)->Ok_0;
        <u32 as NetworkAdapter>::lemma_enc_dec(b1, g2, n2);
        assert(n == n1 + n2);
        assert(m.name == g1);
        assert(m.guild_rank == g2);
        if Self::canon(b) {
            let s1 = n1;
            let s2 = s1 + n2;
            let q1 = <RLE<String, u16> as NetworkAdapter>::enc_model(m.name);
            assert(q1 == b.take(s1));
            lemma_take_concat(b, s1, n2);
            let q2 = q1 + <u32 as NetworkAdapter>::enc_model(m.guild_rank);
            assert(q2 == b.take(s2));
            assert(Self::enc_model(m) == q2);
            assert(Self::enc_model(m) == b.take(n));
        }
    }
}

#[verifier::ext_equal]
#[derive(Debug, PartialEq, Clone)]
pub struct ChangeTrade {
    pub offer: RLE<Vec<bool>, u16>,
}

/// The mathematical model of a decoded `ChangeTrade`.
#[verifier::ext_equal]
pub struct ChangeTradeModel {
    pub offer: Seq<bool>,
}

impl NetworkAdapter for ChangeTrade {
    type Model = ChangeTradeModel;

    open spec fn model(self) -> ChangeTradeModel {
        ChangeTradeModel {
            offer: self.offer.model(),
        }
    }

    open spec fn enc_model(m: ChangeTradeModel) -> Seq<u8> {
        <RLE<Vec<bool>, u16> as NetworkAdapter>::enc_model(m.offer)
    }

    open spec fn valid_model(m: ChangeTradeModel) -> bool {
        <RLE<Vec<bool>, u16> as NetworkAdapter>::valid_model(m.offer)
    }

    closed spec fn dec(b: Seq<u8>) -> Result<(ChangeTradeModel, int), Error> {
        match <RLE<Vec<bool>, u16> as NetworkAdapter>::dec(b) {
            Ok((g1, n1)) => {
                Ok((ChangeTradeModel { offer: g1 }, n1))
            },
            Err(e) => Err(e),
        }
    }

    closed spec fn canon(b: Seq<u8>) -> bool {
        match <RLE<Vec<bool>, u16> as NetworkAdapter>::dec(b) {
            Ok((g1, n1)) => <RLE<Vec<bool>, u16> as NetworkAdapter>::canon(b) && {
                true
            },
            Err(e) => true,
        }
    }

    fn get_be(r: &mut Reader) -> (res: Result<ChangeTrade, Error>) {
        let ghost b = old(r).remaining_bytes();
        let save = r.position();
        let x1 = match <RLE<Vec<bool>, u16> as NetworkAdapter>::get_be(r) {
            Ok(v) => v,
            Err(e) => {
                r.seek(save);
                return Err(e);
            },
        };
        proof {
            let (g1, n1) = <RLE<Vec<bool>, u16> as NetworkAdapter>::dec(b)->Ok_0;
        }
        Ok(ChangeTrade { offer: x1 })
    }

    fn put_be(self, out: &mut Vec<u8>) -> (res: Result<(), Error>) {
        let ghost m = self.model();
        let ChangeTrade { offer } = self;
        let ghost e1 = <RLE<Vec<bool>, u16> as NetworkAdapter>::enc_model(m.offer);
        let ghost p1 = e1;
        let mut tmp: Vec<u8> = Vec::new();
        let ghost o0 = tmp@;
        match offer.put_be(&mut tmp) {
            Ok(()) => {},
            Err(e) => {
                return Err(e);
            },
        };
        let ghost o1 = tmp@;
        proof {
            assert(offer.model() == m.offer);
            assert(o1 == o0 + p1);
        }
        out.append(&mut tmp);
        proof {
            assert(Self::enc_model(m) == p1);
            assert(o0 + p1 =~= p1);
            assert(out@ == old(out)@ + Self::enc_model(m));
        }
        Ok(())
    }

    proof fn lemma_dec_enc(m: ChangeTradeModel, rest: Seq<u8>) {
        let e1 = <RLE<Vec<bool>, u16> as NetworkAdapter>::enc_model(m.offer);
        let p1 = e1;
        assert(Self::enc_model(m) == p1);
        let r1 = rest;
        let b = Self::enc_model(m) + rest;
        assert(b == e1 + r1);
        <RLE<Vec<bool>, u16> as NetworkAdapter>::lemma_dec_enc(m.offer, r1);
        assert(Self::enc_model(m).len() == e1.len());
        assert(ChangeTradeModel { offer: m.offer } =~= m);
    }

    proof fn lemma_enc_dec(b: Seq<u8>, m: ChangeTradeModel, n: int) {
        let (g1, n1) = <RLE<Vec<bool>, u16> as NetworkAdapter>::dec(b)->Ok_0;
        <RLE<Vec<bool>, u16> as NetworkAdapter>::lemma_enc_dec(b, g1, n1);
        assert(n == n1);
        assert(m.offer == g1);
        if Self::canon(b) {
            let s1 = n1;
            let q1 = <RLE<Vec<bool>, u16> as NetworkAdapter>::enc_model(m.offer);
            assert(q1 == b.take(s1));
            assert(Self::enc_model(m) == q1);
            assert(Self::enc_model(m) == b.take(n));
        }
    }
}

#[verifier::ext_equal]
#[derive(Debug, PartialEq, Clone)]
pub struct CheckCredits {
}

impl NetworkAdapter for CheckCredits {
    type Model = CheckCredits;

    open spec fn model(self) -> CheckCredits {
        self
    }

    open spec fn enc_model(m: CheckCredits) -> Seq<u8> {
        Seq::empty()
    }

    open spec fn valid_model(m: CheckCredits) -> bool {
        true
    }

    closed spec fn dec(b: Seq<u8>) -> Result<(CheckCredits, int), Error> {
        Ok((CheckCredits {  }, 0))
    }

    closed spec fn canon(b: Seq<u8>) -> bool {
        true
    }

    fn get_be(r: &mut Reader) -> (res: Result<CheckCredits, Error>) {
        let ghost b = old(r).remaining_bytes();
        proof {
            assert(b.skip(0) =~= b);
        }
        Ok(CheckCredits {  })
    }

    fn put_be(self, out: &mut Vec<u8>) -> (res: Result<(), Error>) {
        let ghost m = self.model();
        let CheckCredits {  } = self;
        let mut tmp: Vec<u8> = Vec::new();
        let ghost o0 = tmp@;
        out.append(&mut tmp);
        proof {
            assert(out@ =~= old(out)@ + Self::enc_model(m));
        }
        Ok(())
    }

    proof fn lemma_dec_enc(m: CheckCredits, rest: Seq<u8>) {
        assert(m =~= CheckCredits {  });
    }

    proof fn lemma_enc_dec(b: Seq<u8>, m: CheckCredits, n: int) {
        assert(m =~= CheckCredits {  });
        assert(Self::enc_model(m) =~= b.take(0));
    }
}

#[verifier::ext_equal]
#[derive(Debug, PartialEq, Clone)]
pub struct ChooseName {
    pub name: RLE<String, u16>,
}

/// The mathematical model of a decoded `ChooseName`.
#[verifier::ext_equal]
pub struct ChooseNameModel {
    pub name: Seq<char>,
}

impl NetworkAdapter for ChooseName {
    type Model = ChooseNameModel;

    open spec fn model(self) -> ChooseNameModel {
        ChooseNameModel {
            name: self.name.model(),
        }
    }

    open spec fn enc_model(m: ChooseNameModel) -> Seq<u8> {
        <RLE<String, u16> as NetworkAdapter>::enc_model(m.name)
    }

    open spec fn valid_model(m: ChooseNameModel) -> bool {
        <RLE<String, u16> as NetworkAdapter>::valid_model(m.name)
    }

    closed spec fn dec(b: Seq<u8>) -> Result<(ChooseNameModel, int), Error> {
        match <RLE<String, u16> as NetworkAdapter>::dec(b) {
            Ok((g1, n1)) => {
                Ok((ChooseNameModel { name: g1 }, n1))
            },
            Err(e) => Err(e),
        }
    }

    closed spec fn canon(b: Seq<u8>) -> bool {
        match <RLE<String, u16> as NetworkAdapter>::dec(b) {
            Ok((g1, n1)) => <RLE<String, u16> as NetworkAdapter>::canon(b) && {
                true
            },
            Err(e) => true,
        }
    }

    fn get_be(r: &mut Reader) -> (res: Result<ChooseName, Error>) {
        let ghost b = old(r).remaining_bytes();
        let save = r.position();
        let x1 = match <RLE<String, u16> as NetworkAdapter>::get_be(r) {
            Ok(v) => v,
            Err(e) => {
                r.seek(save);
                return Err(e);
            },
        };
        proof {
            let (g1, n1) = <RLE<String, u16> as NetworkAdapter>::dec(b)->Ok_0;
        }
        Ok(ChooseName { name: x1 })
    }

    fn put_be(self, out: &mut Vec<u8>) -> (res: Result<(), Error>) {
        let ghost m = self.model();
        let ChooseName { name } = self;
        let ghost e1 = <RLE<String, u16> as NetworkAdapter>::enc_model(m.name);
        let ghost p1 = e1;
        let mut tmp: Vec<u8> = Vec::new();
        let ghost o0 = tmp@;
        match name.put_be(&mut tmp) {
            Ok(()) => {},
            Err(e) => {
                return Err(e);
            },
        };
        let ghost o1 = tmp@;
        proof {
            assert(name.model() == m.name);
            assert(o1 == o0 + p1);
        }
        out.append(&mut tmp);
        proof {
            assert(Self::enc_model(m) == p1);
            assert(o0 + p1 =~= p1);
            assert(out@ == old(out)@ + Self::enc_model(m));
        }
        Ok(())
    }

    proof fn lemma_dec_enc(m: ChooseNameModel, rest: Seq<u8>) {
        let e1 = <RLE<String, u16> as NetworkAdapter>::enc_model(m.name);
        let p1 = e1;
        assert(Self::enc_model(m) == p1);
        let r1 = rest;
        let b = Self::enc_model(m) + rest;
        assert(b == e1 + r1);
        <RLE<String, u16> as NetworkAdapter>::lemma_dec_enc(m.name, r1);
        assert(Self::enc_model(m).len() == e1.len());
        assert(ChooseNameModel { name: m.name } =~= m);
    }

    proof fn lemma_enc_dec(b: Seq<u8>, m: ChooseNameModel, n: int) {
        let (g1, n1) = <RLE<String, u16> as NetworkAdapter>::dec(b)->Ok_0;
        <RLE<String, u16> as NetworkAdapter>::lemma_enc_dec(b, g1, n1);
        assert(n == n1);
        assert(m.name == g1);
        if Self::canon(b) {
            let s1 = n1;
            let q1 = <RLE<String, u16> as NetworkAdapter>::enc_model(m.name);
            assert(q1 == b.take(s1));
            assert(Self::enc_model(m) == q1);
            assert(Self::enc_model(m) == b.take(n));
        }
    }
}

#[verifier::ext_equal]
#[derive(Debug, PartialEq, Clone)]
pub struct ClaimLoginRewardMsg {
    pub claim_key: RLE<String, u16>,
    pub typ: RLE<String, u16>,
}

/// The mathematical model of a decoded `ClaimLoginRewardMsg`.
#[verifier::ext_equal]
pub struct ClaimLoginRewardMsgModel {
    pub claim_key: Seq<char>,
    pub typ: Seq<char>,
}

impl NetworkAdapter for ClaimLoginRewardMsg {
    type Model = ClaimLoginRewardMsgModel;

    open spec fn model(self) -> ClaimLoginRewardMsgModel {
        ClaimLoginRewardMsgModel {
            claim_key: self.claim_key.model(),
            typ: self.typ.model(),
        }
    }

    open spec fn enc_model(m: ClaimLoginRewardMsgModel) -> Seq<u8> {
        <RLE<String, u16> as NetworkAdapter>::enc_model(m.claim_key) + <RLE<String, u16> as NetworkAdapter>::enc_model(m.typ)
    }

    open spec fn valid_model(m: ClaimLoginRewardMsgModel) -> bool {
        <RLE<String, u16> as NetworkAdapter>::valid_model(m.claim_key) && <RLE<String, u16> as NetworkAdapter>::valid_model(m.typ)
    }

    closed spec fn dec(b: Seq<u8>) -> Result<(ClaimLoginRewardMsgModel, int), Error> {
        match <RLE<String, u16> as NetworkAdapter>::dec(b) {
            Ok((g1, n1)) => {
                let b1 = b.skip(n1);
                match <RLE<String, u16> as NetworkAdapter>::dec(b1) {
                    Ok((g2, n2)) => {
                        Ok((ClaimLoginRewardMsgModel { claim_key: g1, typ: g2 }, n1 + n2))
                    },
                    Err(e) => Err(e),
                }
            },
            Err(e) => Err(e),
        }
    }

    closed spec fn canon(b: Seq<u8>) -> bool {
        match <RLE<String, u16> as NetworkAdapter>::dec(b) {
            Ok((g1, n1)) => <RLE<String, u16> as NetworkAdapter>::canon(b) && {
                let b1 = b.skip(n1);
                match <RLE<String, u16> as NetworkAdapter>::dec(b1) {
                    Ok((g2, n2)) => <RLE<String, u16> as NetworkAdapter>::canon(b1) && {
                        true
                    },
                    Err(e) => true,
                }
            },
            Err(e) => true,
        }
    }

    fn get_be(r: &mut Reader) -> (res: Result<ClaimLoginRewardMsg, Error>) {
        let ghost b = old(r).remaining_bytes();
        let save = r.position();
        let x1 = match <RLE<String, u16> as NetworkAdapter>::get_be(r) {
            Ok(v) => v,
            Err(e) => {
                r.seek(save);
                return Err(e);
            },
        };
        let x2 = match <RLE<String, u16> as NetworkAdapter>::get_be(r) {
            Ok(v) => v,
            Err(e) => {
                r.seek(save);
                return Err(e);
            },
        };
        proof {
            let (g1, n1) = <RLE<String, u16> as NetworkAdapter>::dec(b)->Ok_0;
            let b1 = b.skip(n1);
            let (g2, n2) = <RLE<String, u16> as NetworkAdapter>::dec(b1)->Ok_0;
            lemma_skip_skip(b, n1, n2);
            assert(b1.skip(n2) == b.skip(n1 + n2));
        }
        Ok(ClaimLoginRewardMsg { claim_key: x1, typ: x2 })
    }

    fn put_be(self, out: &mut Vec<u8>) -> (res: Result<(), Error>) {
        let ghost m = self.model();
        let ClaimLoginRewardMsg { claim_key, typ } = self;
        let ghost e1 = <RLE<String, u16> as NetworkAdapter>::enc_model(m.claim_key);
        let ghost e2 = <RLE<String, u16> as NetworkAdapter>::enc_model(m.typ);
        let ghost p1 = e1;
        let ghost p2 = p1 + e2;
        let mut tmp: Vec<u8> = Vec::new();
        let ghost o0 = tmp@;
        match claim_key.put_be(&mut tmp) {
            Ok(()) => {},
            Err(e) => {
                return Err(e);
            },
        };
        let ghost o1 = tmp@;
        proof {
            assert(claim_key.model() == m.claim_key);
            assert(o1 == o0 + p1);
        }
        match typ.put_be(&mut tmp) {
            Ok(()) => {},
            Err(e) => {
                return Err(e);
            },
        };
        let ghost o2 = tmp@;
        proof {
            assert(typ.model() == m.typ);
            lemma_seq_assoc(o0, p1, e2);
            assert(o2 == o0 + p2);
        }
        out.append(&mut tmp);
        proof {
            assert(Self::enc_model(m) == p2);
            assert(o0 + p2 =~= p2);
            assert(out@ == old(out)@ + Self::enc_model(m));
        }
        Ok(())
    }

    proof fn lemma_dec_enc(m: ClaimLoginRewardMsgModel, rest: Seq<u8>) {
        let e1 = <RLE<String, u16> as NetworkAdapter>::enc_model(m.claim_key);
        let e2 = <RLE<String, u16> as NetworkAdapter>::enc_model(m.typ);
        let p1 = e1;
        let p2 = p1 + e2;
        assert(Self::enc_model(m) == p2);
        let r2 = rest;
        let r1 = e2 + r2;
        let b = Self::enc_model(m) + rest;
        lemma_seq_assoc(p1, e2, r2);
        assert(p2 + r2 == p1 + r1);
        assert(b == e1 + r1);
        <RLE<String, u16> as NetworkAdapter>::lemma_dec_enc(m.claim_key, r1);
        <RLE<String, u16> as NetworkAdapter>::lemma_dec_enc(m.typ, r2);
        let c1 = b.skip(e1.len() as int);
        lemma_skip_concat(e1, r1);
        assert(c1 == r1);
        assert(Self::enc_model(m).len() == e1.len() + e2.len());
        assert(ClaimLoginRewardMsgModel { claim_key: m.claim_key, typ: m.typ } =~= m);
    }

    proof fn lemma_enc_dec(b: Seq<u8>, m: ClaimLoginRewardMsgModel, n: int) {
        let (g1, n1) = <RLE<String, u16> as NetworkAdapter>::dec(b)->Ok_0;
        <RLE<String, u16> as NetworkAdapter>::lemma_enc_dec(b, g1, n1);
        let b1 = b.skip(n1);
        let (g2, n2) = <RLE<String, u16> as NetworkAdapter>::dec(b1)->Ok_0;
        <RLE<String, u16> as NetworkAdapter>::lemma_enc_dec(b1, g2, n2);
        assert(n == n1 + n2);
        assert(m.claim_key == g1);
        assert(m.typ == g2);
        if Self::canon(b) {
            let s1 = n1;
            let s2 = s1 + n2;
            let q1 = <RLE<String, u16> as NetworkAdapter>::enc_model(m.claim_key);
            assert(q1 == b.take(s1));
            lemma_take_concat(b, s1, n2);
            let q2 = q1 + <RLE<String, u16> as NetworkAdapter>::enc_model(m.typ);
            assert(q2 == b.take(s2));
            assert(Self::enc_model(m) == q2);
            assert(Self::enc_model(m) == b.take(n));
        }
    }
}

#[verifier::ext_equal]
#[derive(Debug, PartialEq, Clone)]
pub struct Create {
    pub class_type: u16,
    pub skin_type: u16,
}

impl NetworkAdapter for Create {
    type Model = Create;

    open spec fn model(self) -> Create {
        self
    }

    open spec fn enc_model(m: Create) -> Seq<u8> {
        <u16 as NetworkAdapter>::enc_model(m.class_type) + <u16 as NetworkAdapter>::enc_model(m.skin_type)
    }

    open spec fn valid_model(m: Create) -> bool {
        <u16 as NetworkAdapter>::valid_model(m.class_type) && <u16 as NetworkAdapter>::valid_model(m.skin_type)
    }

    closed spec fn dec(b: Seq<u8>) -> Result<(Create, int), Error> {
        match <u16 as NetworkAdapter>::dec(b) {
            Ok((g1, n1)) => {
                let b1 = b.skip(n1);
                match <u16 as NetworkAdapter>::dec(b1) {
                    Ok((g2, n2)) => {
                        Ok((Create { class_type: g1, skin_type: g2 }, n1 + n2))
                    },
                    Err(e) => Err(e),
                }
            },
            Err(e) => Err(e),
        }
    }

    closed spec fn canon(b: Seq<u8>) -> bool {
        match <u16 as NetworkAdapter>::dec(b) {
            Ok((g1, n1)) => <u16 as NetworkAdapter>::canon(b) && {
                let b1 = b.skip(n1);
                match <u16 as NetworkAdapter>::dec(b1) {
                    Ok((g2, n2)) => <u16 as NetworkAdapter>::canon(b1) && {
                        true
                    },
                    Err(e) => true,
                }
            },
            Err(e) => true,
        }
    }

    fn get_be(r: &mut Reader) -> (res: Result<Create, Error>) {
        let ghost b = old(r).remaining_bytes();
        let save = r.position();
        let x1 = match <u16 as NetworkAdapter>::get_be(r) {
            Ok(v) => v,
            Err(e) => {
                r.seek(save);
                return Err(e);
            },
        };
        let x2 = match <u16 as NetworkAdapter>::get_be(r) {
            Ok(v) => v,
            Err(e) => {
                r.seek(save);
                return Err(e);
            },
        };
        proof {
            let (g1, n1) = <u16 as NetworkAdapter>::dec(b)->Ok_0;
            let b1 = b.skip(n1);
            let (g2, n2) = <u16 as NetworkAdapter>::dec(b1)->Ok_0;
            lemma_skip_skip(b, n1, n2);
            assert(b1.skip(n2) == b.skip(n1 + n2));
        }
        Ok(Create { class_type: x1, skin_type: x2 })
    }

    fn put_be(self, out: &mut Vec<u8>) -> (res: Result<(), Error>) {
        let ghost m = self.model();
        let Create { class_type, skin_type } = self;
        let ghost e1 = <u16 as NetworkAdapter>::enc_model(m.class_type);
        let ghost e2 = <u16 as NetworkAdapter>::enc_model(m.skin_type);
        let ghost p1 = e1;
        let ghost p2 = p1 + e2;
        let mut tmp: Vec<u8> = Vec::new();
        let ghost o0 = tmp@;
        match class_type.put_be(&mut tmp) {
            Ok(()) => {},
            Err(e) => {
                return Err(e);
            },
        };
        let ghost o1 = tmp@;
        proof {
            assert(class_type == m.class_type);
            assert(o1 == o0 + p1);
        }
        match skin_type.put_be(&mut tmp) {
            Ok(()) => {},
            Err(e) => {
                return Err(e);
            },
        };
        let ghost o2 = tmp@;
        proof {
            assert(skin_type == m.skin_type);
            lemma_seq_assoc(o0, p1, e2);
            assert(o2 == o0 + p2);
        }
        out.append(&mut tmp);
        proof {
            assert(Self::enc_model(m) == p2);
            assert(o0 + p2 =~= p2);
            assert(out@ == old(out)@ + Self::enc_model(m));
        }
        Ok(())
    }

    proof fn lemma_dec_enc(m: Create, rest: Seq<u8>) {
        let e1 = <u16 as NetworkAdapter>::enc_model(m.class_type);
        let e2 = <u16 as NetworkAdapter>::enc_model(m.skin_type);
        let p1 = e1;
        let p2 = p1 + e2;
        assert(Self::enc_model(m) == p2);
        let r2 = rest;
        let r1 = e2 + r2;
        let b = Self::enc_model(m) + rest;
        lemma_seq_assoc(p1, e2, r2);
        assert(p2 + r2 == p1 + r1);
        assert(b == e1 + r1);
        <u16 as NetworkAdapter>::lemma_dec_enc(m.class_type, r1);
        <u16 as NetworkAdapter>::lemma_dec_enc(m.skin_type, r2);
        let c1 = b.skip(e1.len() as int);
        lemma_skip_concat(e1, r1);
        assert(c1 == r1);
        assert(Self::enc_model(m).len() == e1.len() + e2.len());
        assert(Create { class_type: m.class_type, skin_type: m.skin_type } =~= m);
    }

    proof fn lemma_enc_dec(b: Seq<u8>, m: Create, n: int) {
        let (g1, n1) = <u16 as NetworkAdapter>::dec(b)->Ok_0;
        <u16 as NetworkAdapter>::lemma_enc_dec(b, g1, n1);
        let b1 = b.skip(n1);
        let (g2, n2) = <u16 as NetworkAdapter>::dec(b1)->Ok_0;
        <u16 as NetworkAdapter>::lemma_enc_dec(b1, g2, n2);
        assert(n == n1 + n2);
        assert(m.class_type == g1);
        assert(m.skin_type == g2);
        if Self::canon(b) {
            let s1 = n1;
            let s2 = s1 + n2;
            let q1 = <u16 as NetworkAdapter>::enc_model(m.class_type);
            assert(q1 == b.take(s1));
            lemma_take_concat(b, s1, n2);
            let q2 = q1 + <u16 as NetworkAdapter>::enc_model(m.skin_type);
            assert(q2 == b.take(s2));
            assert(Self::enc_model(m) == q2);
            assert(Self::enc_model(m) == b.take(n));
        }
    }
}

#[verifier::ext_equal]
#[derive(Debug, PartialEq, Clone)]
pub struct CreateGuild {
    pub name: RLE<String, u16>,
}

/// The mathematical model of a decoded `CreateGuild`.
#[verifier::ext_equal]
pub struct CreateGuildModel {
    pub name: Seq<char>,
}

impl NetworkAdapter for CreateGuild {
    type Model = CreateGuildModel;

    open spec fn model(self) -> CreateGuildModel {
        CreateGuildModel {
            name: self.name.model(),
        }
    }

    open spec fn enc_model(m: CreateGuildModel) -> Seq<u8> {
        <RLE<String, u16> as NetworkAdapter>::enc_model(m.name)
    }

    open spec fn valid_model(m: CreateGuildModel) -> bool {
        <RLE<String, u16> as NetworkAdapter>::valid_model(m.name)
    }

    closed spec fn dec(b: Seq<u8>) -> Result<(CreateGuildModel, int), Error> {
        match <RLE<String, u16> as NetworkAdapter>::dec(b) {
            Ok((g1, n1)) => {
                Ok((CreateGuildModel { name: g1 }, n1))
            },
            Err(e) => Err(e),
        }
    }

    closed spec fn canon(b: Seq<u8>) -> bool {
        match <RLE<String, u16> as NetworkAdapter>::dec(b) {
            Ok((g1, n1)) => <RLE<String, u16> as NetworkAdapter>::canon(b) && {
                true
            },
            Err(e) => true,
        }
    }

    fn get_be(r: &mut Reader) -> (res: Result<CreateGuild, Error>) {
        let ghost b = old(r).remaining_bytes();
        let save = r.position();
        let x1 = match <RLE<String, u16> as NetworkAdapter>::get_be(r) {
            Ok(v) => v,
            Err(e) => {
                r.seek(save);
                return Err(e);
            },
        };
        proof {
            let (g1, n1) = <RLE<String, u16> as NetworkAdapter>::dec(b)->Ok_0;
        }
        Ok(CreateGuild { name: x1 })
    }

    fn put_be(self, out: &mut Vec<u8>) -> (res: Result<(), Error>) {
        let ghost m = self.model();
        let CreateGuild { name } = self;
        let ghost e1 = <RLE<String, u16> as NetworkAdapter>::enc_model(m.name);
        let ghost p1 = e1;
        let mut tmp: Vec<u8> = Vec::new();
        let ghost o0 = tmp@;
        match name.put_be(&mut tmp) {
            Ok(()) => {},
            Err(e) => {
                return Err(e);
            },
        };
        let ghost o1 = tmp@;
        proof {
            assert(name.model() == m.name);
            assert(o1 == o0 + p1);
        }
        out.append(&mut tmp);
        proof {
            assert(Self::enc_model(m) == p1);
            assert(o0 + p1 =~= p1);
            assert(out@ == old(out)@ + Self::enc_model(m));
        }
        Ok(())
    }

    proof fn lemma_dec_enc(m: CreateGuildModel, rest: Seq<u8>) {
        let e1 = <RLE<String, u16> as NetworkAdapter>::enc_model(m.name);
        let p1 = e1;
        assert(Self::enc_model(m) == p1);
        let r1 = rest;
        let b = Self::enc_model(m) + rest;
        assert(b == e1 + r1);
        <RLE<String, u16> as NetworkAdapter>::lemma_dec_enc(m.name, r1);
        assert(Self::enc_model(m).len() == e1.len());
        assert(CreateGuildModel { name: m.name } =~= m);
    }

    proof fn lemma_enc_dec(b: Seq<u8>, m: CreateGuildModel, n: int) {
        let (g1, n1) = <RLE<String, u16> as NetworkAdapter>::dec(b)->Ok_0;
        <RLE<String, u16> as NetworkAdapter>::lemma_enc_dec(b, g1, n1);
        assert(n == n1);
        assert(m.name == g1);
        if Self::canon(b) {
            let s1 = n1;
            let q1 = <RLE<String, u16> as NetworkAdapter>::enc_model(m.name);
            assert(q1 == b.take(s1));
            assert(Self::enc_model(m) == q1);
            assert(Self::enc_model(m) == b.take(n));
        }
    }
}

#[verifier::ext_equal]
#[derive(Debug, PartialEq, Clone)]
pub struct EditAccountList {
    pub account_list_id: u32,
    pub add: bool,
    pub object_id: u32,
}

impl NetworkAdapter for EditAccountList {
    type Model = EditAccountList;

    open spec fn model(self) -> EditAccountList {
        self
    }

    open spec fn enc_model(m: EditAccountList) -> Seq<u8> {
        <u32 as NetworkAdapter>::enc_model(m.account_list_id) + <bool as NetworkAdapter>::enc_model(m.add) + <u32 as NetworkAdapter>::enc_model(m.object_id)
    }

    open spec fn valid_model(m: EditAccountList) -> bool {
        <u32 as NetworkAdapter>::valid_model(m.account_list_id) && <bool as NetworkAdapter>::valid_model(m.add) && <u32 as NetworkAdapter>::valid_model(m.object_id)
    }

    closed spec fn dec(b: Seq<u8>) -> Result<(EditAccountList, int), Error> {
        match <u32 as NetworkAdapter>::dec(b) {
            Ok((g1, n1)) => {
                let b1 = b.skip(n1);
                match <bool as NetworkAdapter>::dec(b1) {
                    Ok((g2, n2)) => {
                        let b2 = b1.skip(n2);
                        match <u32 as NetworkAdapter>::dec(b2) {
                            Ok((g3, n3)) => {
                                Ok((EditAccountList { account_list_id: g1, add: g2, object_id: g3 }, n1 + n2 + n3))
                            },
                            Err(e) => Err(e),
                        }
                    },
                    Err(e) => Err(e),
                }
            },
            Err(e) => Err(e),
        }
    }

    closed spec fn canon(b: Seq<u8>) -> bool {
        match <u32 as NetworkAdapter>::dec(b) {
            Ok((g1, n1)) => <u32 as NetworkAdapter>::canon(b) && {
                let b1 = b.skip(n1);
                match <bool as NetworkAdapter>::dec(b1) {
                    Ok((g2, n2)) => <bool as NetworkAdapter>::canon(b1) && {
                        let b2 = b1.skip(n2);
                        match <u32 as NetworkAdapter>::dec(b2) {
                            Ok((g3, n3)) => <u32 as NetworkAdapter>::canon(b2) && {
                                true
                            },
                            Err(e) => true,
                        }
                    },
                    Err(e) => true,
                }
            },
            Err(e) => true,
        }
    }

    fn get_be(r: &mut Reader) -> (res: Result<EditAccountList, Error>) {
        let ghost b = old(r).remaining_bytes();
        let save = r.position();
        let x1 = match <u32 as NetworkAdapter>::get_be(r) {
            Ok(v) => v,
            Err(e) => {
                r.seek(save);
                return Err(e);
            },
        };
        let x2 = match <bool as NetworkAdapter>::get_be(r) {
            Ok(v) => v,
            Err(e) => {
                r.seek(save);
                return Err(e);
            },
        };
        let x3 = match <u32 as NetworkAdapter>::get_be(r) {
            Ok(v) => v,
            Err(e) => {
                r.seek(save);
                return Err(e);
            },
        };
        proof {
            let (g1, n1) = <u32 as NetworkAdapter>::dec(b)->Ok_0;
            let b1 = b.skip(n1);
            let (g2, n2) = <bool as NetworkAdapter>::dec(b1)->Ok_0;
            let b2 = b1.skip(n2);
            let (g3, n3) = <u32 as NetworkAdapter>::dec(b2)->Ok_0;
            lemma_skip_skip(b, n1, n2);
            assert(b2 == b.skip(n1 + n2));
            lemma_skip_skip(b, n1 + n2, n3);
            assert(b2.skip(n3) == b.skip(n1 + n2 + n3));
        }
        Ok(EditAccountList { account_list_id: x1, add: x2, object_id: x3 })
    }

    fn put_be(self, out: &mut Vec<u8>) -> (res: Result<(), Error>) {
        let ghost m = self.model();
        let EditAccountList { account_list_id, add, object_id } = self;
        let ghost e1 = <u32 as NetworkAdapter>::enc_model(m.account_list_id);
        let ghost e2 = <bool as NetworkAdapter>::enc_model(m.add);
        let ghost e3 = <u32 as NetworkAdapter>::enc_model(m.object_id);
        let ghost p1 = e1;
        let ghost p2 = p1 + e2;
        let ghost p3 = p2 + e3;
        let mut tmp: Vec<u8> = Vec::new();
        let ghost o0 = tmp@;
        match account_list_id.put_be(&mut tmp) {
            Ok(()) => {},
            Err(e) => {
                return Err(e);
            },
        };
        let ghost o1 = tmp@;
        proof {
            assert(account_list_id == m.account_list_id);
            assert(o1 == o0 + p1);
        }
        match add.put_be(&mut tmp) {
            Ok(()) => {},
            Err(e) => {
                return Err(e);
            },
        };
        let ghost o2 = tmp@;
        proof {
            assert(add == m.add);
            lemma_seq_assoc(o0, p1, e2);
            assert(o2 == o0 + p2);
        }
        match object_id.put_be(&mut tmp) {
            Ok(()) => {},
            Err(e) => {
                return Err(e);
            },
        };
        let ghost o3 = tmp@;
        proof {
            assert(object_id == m.object_id);
            lemma_seq_assoc(o0, p2, e3);
            assert(o3 == o0 + p3);
        }
        out.append(&mut tmp);
        proof {
            assert(Self::enc_model(m) == p3);
            assert(o0 + p3 =~= p3);
            assert(out@ == old(out)@ + Self::enc_model(m));
        }
        Ok(())
    }

    proof fn lemma_dec_enc(m: EditAccountList, rest: Seq<u8>) {
        let e1 = <u32 as NetworkAdapter>::enc_model(m.account_list_id);
        let e2 = <bool as NetworkAdapter>::enc_model(m.add);
        let e3 = <u32 as NetworkAdapter>::enc_model(m.object_id);
        let p1 = e1;
        let p2 = p1 + e2;
        let p3 = p2 + e3;
        assert(Self::enc_model(m) == p3);
        let r3 = rest;
        let r2 = e3 + r3;
        let r1 = e2 + r2;
        let b = Self::enc_model(m) + rest;
        lemma_seq_assoc(p2, e3, r3);
        assert(p3 + r3 == p2 + r2);
        lemma_seq_assoc(p1, e2, r2);
        assert(p2 + r2 == p1 + r1);
        assert(b == e1 + r1);
        <u32 as NetworkAdapter>::lemma_dec_enc(m.account_list_id, r1);
        <bool as NetworkAdapter>::lemma_dec_enc(m.add, r2);
        <u32 as NetworkAdapter>::lemma_dec_enc(m.object_id, r3);
        let c1 = b.skip(e1.len() as int);
        lemma_skip_concat(e1, r1);
        assert(c1 == r1);
        let c2 = c1.skip(e2.len() as int);
        lemma_skip_concat(e2, r2);
        assert(c2 == r2);
        assert(Self::enc_model(m).len() == e1.len() + e2.len() + e3.len());
        assert(EditAccountList { account_list_id: m.account_list_id, add: m.add, object_id: m.object_id } =~= m);
    }

    proof fn lemma_enc_dec(b: Seq<u8>, m: EditAccountList, n: int) {
        let (g1, n1) = <u32 as NetworkAdapter>::dec(b)->Ok_0;
        <u32 as NetworkAdapter>::lemma_enc_dec(b, g1, n1);
        let b1 = b.skip(n1);
        let (g2, n2) = <bool as NetworkAdapter>::dec(b1)->Ok_0;
        <bool as NetworkAdapter>::lemma_enc_dec(b1, g2, n2);
        let b2 = b1.skip(n2);
        let (g3, n3) = <u32 as NetworkAdapter>::dec(b2)->Ok_0;
        <u32 as NetworkAdapter>::lemma_enc_dec(b2, g3, n3);
        lemma_skip_skip(b, n1, n2);
        assert(b2 == b.skip(n1 + n2));
        assert(n == n1 + n2 + n3);
        assert(m.account_list_id == g1);
        assert(m.add == g2);
        assert(m.object_id == g3);
        if Self::canon(b) {
            let s1 = n1;
            let s2 = s1 + n2;
            let s3 = s2 + n3;
            let q1 = <u32 as NetworkAdapter>::enc_model(m.account_list_id);
            assert(q1 == b.take(s1));
            lemma_take_concat(b, s1, n2);
            let q2 = q1 + <bool as NetworkAdapter>::enc_model(m.add);
            assert(q2 == b.take(s2));
            lemma_take_concat(b, s2, n3);
            let q3 = q2 + <u32 as NetworkAdapter>::enc_model(m.object_id);
            assert(q3 == b.take(s3));
            assert(Self::enc_model(m) == q3);
            assert(Self::enc_model(m) == b.take(n));
        }
    }
}

#[verifier::ext_equal]
#[derive(Debug, PartialEq, Clone)]
pub struct EnemyHit {
    pub time: u32,
    pub bullet_id: u8,
    pub target_id: u32,
    pub kill: bool,
}

impl NetworkAdapter for EnemyHit {
    type Model = EnemyHit;

    open spec fn model(self) -> EnemyHit {
        self
    }

    open spec fn enc_model(m: EnemyHit) -> Seq<u8> {
        <u32 as NetworkAdapter>::enc_model(m.time) + <u8 as NetworkAdapter>::enc_model(m.bullet_id) + <u32 as NetworkAdapter>::enc_model(m.target_id) + <bool as NetworkAdapter>::enc_model(m.kill)
    }

    open spec fn valid_model(m: EnemyHit) -> bool {
        <u32 as NetworkAdapter>::valid_model(m.time) && <u8 as NetworkAdapter>::valid_model(m.bullet_id) && <u32 as NetworkAdapter>::valid_model(m.target_id) && <bool as NetworkAdapter>::valid_model(m.kill)
    }

    closed spec fn dec(b: Seq<u8>) -> Result<(EnemyHit, int), Error> {
        match <u32 as NetworkAdapter>::dec(b) {
            Ok((g1, n1)) => {
                let b1 = b.skip(n1);
                match <u8 as NetworkAdapter>::dec(b1) {
                    Ok((g2, n2)) => {
                        let b2 = b1.skip(n2);
                        match <u32 as NetworkAdapter>::dec(b2) {
                            Ok((g3, n3)) => {
                                let b3 = b2.skip(n3);
                                match <bool as NetworkAdapter>::dec(b3) {
                                    Ok((g4, n4)) => {
                                        Ok((EnemyHit { time: g1, bullet_id: g2, target_id: g3, kill: g4 }, n1 + n2 + n3 + n4))
                                    },
                                    Err(e) => Err(e),
                                }
                            },
                            Err(e) => Err(e),
                        }
                    },
                    Err(e) => Err(e),
                }
            },
            Err(e) => Err(e),
        }
    }

    closed spec fn canon(b: Seq<u8>) -> bool {
        match <u32 as NetworkAdapter>::dec(b) {
            Ok((g1, n1)) => <u32 as NetworkAdapter>::canon(b) && {
                let b1 = b.skip(n1);
                match <u8 as NetworkAdapter>::dec(b1) {
                    Ok((g2, n2)) => <u8 as NetworkAdapter>::canon(b1) && {
                        let b2 = b1.skip(n2);
                        match <u32 as NetworkAdapter>::dec(b2) {
                            Ok((g3, n3)) => <u32 as NetworkAdapter>::canon(b2) && {
                                let b3 = b2.skip(n3);
                                match <bool as NetworkAdapter>::dec(b3) {
                                    Ok((g4, n4)) => <bool as NetworkAdapter>::canon(b3) && {
                                        true
                                    },
                                    Err(e) => true,
                                }
                            },
                            Err(e) => true,
                        }
                    },
                    Err(e) => true,
                }
            },
            Err(e) => true,
        }
    }

    fn get_be(r: &mut Reader) -> (res: Result<EnemyHit, Error>) {
        let ghost b = old(r).remaining_bytes();
        let save = r.position();
        let x1 = match <u32 as NetworkAdapter>::get_be(r) {
            Ok(v) => v,
            Err(e) => {
                r.seek(save);
                return Err(e);
            },
        };
        let x2 = match <u8 as NetworkAdapter>::get_be(r) {
            Ok(v) => v,
            Err(e) => {
                r.seek(save);
                return Err(e);
            },
        };
        let x3 = match <u32 as NetworkAdapter>::get_be(r) {
            Ok(v) => v,
            Err(e) => {
                r.seek(save);
                return Err(e);
            },
        };
        let x4 = match <bool as NetworkAdapter>::get_be(r) {
            Ok(v) => v,
            Err(e) => {
                r.seek(save);
                return Err(e);
            },
        };
        proof {
            let (g1, n1) = <u32 as NetworkAdapter>::dec(b)->Ok_0;
            let b1 = b.skip(n1);
            let (g2, n2) = <u8 as NetworkAdapter>::dec(b1)->Ok_0;
            let b2 = b1.skip(n2);
            let (g3, n3) = <u32 as NetworkAdapter>::dec(b2)->Ok_0;
            let b3 = b2.skip(n3);
            let (g4, n4) = <bool as NetworkAdapter>::dec(b3)->Ok_0;
            lemma_skip_skip(b, n1, n2);
            assert(b2 == b.skip(n1 + n2));
            lemma_skip_skip(b, n1 + n2, n3);
            assert(b3 == b.skip(n1 + n2 + n3));
            lemma_skip_skip(b, n1 + n2 + n3, n4);
            assert(b3.skip(n4) == b.skip(n1 + n2 + n3 + n4));
        }
        Ok(EnemyHit { time: x1, bullet_id: x2, target_id: x3, kill: x4 })
    }

    fn put_be(self, out: &mut Vec<u8>) -> (res: Result<(), Error>) {
        let ghost m = self.model();
        let EnemyHit { time, bullet_id, target_id, kill } = self;
        let ghost e1 = <u32 as NetworkAdapter>::enc_model(m.time);
        let ghost e2 = <u8 as NetworkAdapter>::enc_model(m.bullet_id);
        let ghost e3 = <u32 as NetworkAdapter>::enc_model(m.target_id);
        let ghost e4 = <bool as NetworkAdapter>::enc_model(m.kill);
        let ghost p1 = e1;
        let ghost p2 = p1 + e2;
        let ghost p3 = p2 + e3;
        let ghost p4 = p3 + e4;
        let mut tmp: Vec<u8> = Vec::new();
        let ghost o0 = tmp@;
        match time.put_be(&mut tmp) {
            Ok(()) => {},
            Err(e) => {
                return Err(e);
            },
        };
        let ghost o1 = tmp@;
        proof {
            assert(time == m.time);
            assert(o1 == o0 + p1);
        }
        match bullet_id.put_be(&mut tmp) {
            Ok(()) => {},
            Err(e) => {
                return Err(e);
            },
        };
        let ghost o2 = tmp@;
        proof {
            assert(bullet_id == m.bullet_id);
            lemma_seq_assoc(o0, p1, e2);
            assert(o2 == o0 + p2);
        }
        match target_id.put_be(&mut tmp) {
            Ok(()) => {},
            Err(e) => {
                return Err(e);
            },
        };
        let ghost o3 = tmp@;
        proof {
            assert(target_id == m.target_id);
            lemma_seq_assoc(o0, p2, e3);
            assert(o3 == o0 + p3);
        }
        match kill.put_be(&mut tmp) {
            Ok(()) => {},
            Err(e) => {
                return Err(e);
            },
        };
        let ghost o4 = tmp@;
        proof {
            assert(kill == m.kill);
            lemma_seq_assoc(o0, p3, e4);
            assert(o4 == o0 + p4);
        }
        out.append(&mut tmp);
        proof {
            assert(Self::enc_model(m) == p4);
            assert(o0 + p4 =~= p4);
            assert(out@ == old(out)@ + Self::enc_model(m));
        }
        Ok(())
    }

    proof fn lemma_dec_enc(m: EnemyHit, rest: Seq<u8>) {
        let e1 = <u32 as NetworkAdapter>::enc_model(m.time);
        let e2 = <u8 as NetworkAdapter>::enc_model(m.bullet_id);
        let e3 = <u32 as NetworkAdapter>::enc_model(m.target_id);
        let e4 = <bool as NetworkAdapter>::enc_model(m.kill);
        let p1 = e1;
        let p2 = p1 + e2;
        let p3 = p2 + e3;
        let p4 = p3 + e4;
        assert(Self::enc_model(m) == p4);
        let r4 = rest;
        let r3 = e4 + r4;
        let r2 = e3 + r3;
        let r1 = e2 + r2;
        let b = Self::enc_model(m) + rest;
        lemma_seq_assoc(p3, e4, r4);
        assert(p4 + r4 == p3 + r3);
        lemma_seq_assoc(p2, e3, r3);
        assert(p3 + r3 == p2 + r2);
        lemma_seq_assoc(p1, e2, r2);
        assert(p2 + r2 == p1 + r1);
        assert(b == e1 + r1);
        <u32 as NetworkAdapter>::lemma_dec_enc(m.time, r1);
        <u8 as NetworkAdapter>::lemma_dec_enc(m.bullet_id, r2);
        <u32 as NetworkAdapter>::lemma_dec_enc(m.target_id, r3);
        <bool as NetworkAdapter>::lemma_dec_enc(m.kill, r4);
        let c1 = b.skip(e1.len() as int);
        lemma_skip_concat(e1, r1);
        assert(c1 == r1);
        let c2 = c1.skip(e2.len() as int);
        lemma_skip_concat(e2, r2);
        assert(c2 == r2);
        let c3 = c2.skip(e3.len() as int);
        lemma_skip_concat(e3, r3);
        assert(c3 == r3);
        assert(Self::enc_model(m).len() == e1.len() + e2.len() + e3.len() + e4.len());
        assert(EnemyHit { time: m.time, bullet_id: m.bullet_id, target_id: m.target_id, kill: m.kill } =~= m);
    }

    proof fn lemma_enc_dec(b: Seq<u8>, m: EnemyHit, n: int) {
        let (g1, n1) = <u32 as NetworkAdapter>::dec(b)->Ok_0;
        <u32 as NetworkAdapter>::lemma_enc_dec(b, g1, n1);
        let b1 = b.skip(n1);
        let (g2, n2) = <u8 as NetworkAdapter>::dec(b1)->Ok_0;
        <u8 as NetworkAdapter>::lemma_enc_dec(b1, g2, n2);
        let b2 = b1.skip(n2);
        let (g3, n3) = <u32 as NetworkAdapter>::dec(b2)->Ok_0;
        <u32 as NetworkAdapter>::lemma_enc_dec(b2, g3, n3);
        let b3 = b2.skip(n3);
        let (g4, n4) = <bool as NetworkAdapter>::dec(b3)->Ok_0;
        <bool as NetworkAdapter>::lemma_enc_dec(b3, g4, n4);
        lemma_skip_skip(b, n1, n2);
        assert(b2 == b.skip(n1 + n2));
        lemma_skip_skip(b, n1 + n2, n3);
        assert(b3 == b.skip(n1 + n2 + n3));
        assert(n == n1 + n2 + n3 + n4);
        assert(m.time == g1);
        assert(m.bullet_id == g2);
        assert(m.target_id == g3);
        assert(m.kill == g4);
        if Self::canon(b) {
            let s1 = n1;
            let s2 = s1 + n2;
            let s3 = s2 + n3;
            let s4 = s3 + n4;
            let q1 = <u32 as NetworkAdapter>::enc_model(m.time);
            assert(q1 == b.take(s1));
            lemma_take_concat(b, s1, n2);
            let q2 = q1 + <u8 as NetworkAdapter>::enc_model(m.bullet_id);
            assert(q2 == b.take(s2));
            lemma_take_concat(b, s2, n3);
            let q3 = q2 + <u32 as NetworkAdapter>::enc_model(m.target_id);
            assert(q3 == b.take(s3));
            lemma_take_concat(b, s3, n4);
            let q4 = q3 + <bool as NetworkAdapter>::enc_model(m.kill);
            assert(q4 == b.take(s4));
            assert(Self::enc_model(m) == q4);
            assert(Self::enc_model(m) == b.take(n));
        }
    }
}

#[verifier::ext_equal]
#[derive(Debug, PartialEq, Clone)]
pub struct EnterArena {
    pub currency: u32,
}

impl NetworkAdapter for EnterArena {
    type Model = EnterArena;

    open spec fn model(self) -> EnterArena {
        self
    }

    open spec fn enc_model(m: EnterArena) -> Seq<u8> {
        <u32 as NetworkAdapter>::enc_model(m.currency)
    }

    open spec fn valid_model(m: EnterArena) -> bool {
        <u32 as NetworkAdapter>::valid_model(m.currency)
    }

    closed spec fn dec(b: Seq<u8>) -> Result<(EnterArena, int), Error> {
        match <u32 as NetworkAdapter>::dec(b) {
            Ok((g1, n1)) => {
                Ok((EnterArena { currency: g1 }, n1))
            },
            Err(e) => Err(e),
        }
    }

    closed spec fn canon(b: Seq<u8>) -> bool {
        match <u32 as NetworkAdapter>::dec(b) {
            Ok((g1, n1)) => <u32 as NetworkAdapter>::canon(b) && {
                true
            },
            Err(e) => true,
        }
    }

    fn get_be(r: &mut Reader) -> (res: Result<EnterArena, Error>) {
        let ghost b = old(r).remaining_bytes();
        let save = r.position();
        let x1 = match <u32 as NetworkAdapter>::get_be(r) {
            Ok(v) => v,
            Err(e) => {
                r.seek(save);
                return Err(e);
            },
        };
        proof {
            let (g1, n1) = <u32 as NetworkAdapter>::dec(b)->Ok_0;
        }
        Ok(EnterArena { currency: x1 })
    }

    fn put_be(self, out: &mut Vec<u8>) -> (res: Result<(), Error>) {
        let ghost m = self.model();
        let EnterArena { currency } = self;
        let ghost e1 = <u32 as NetworkAdapter>::enc_model(m.currency);
        let ghost p1 = e1;
        let mut tmp: Vec<u8> = Vec::new();
        let ghost o0 = tmp@;
        match currency.put_be(&mut tmp) {
            Ok(()) => {},
            Err(e) => {
                return Err(e);
            },
        };
        let ghost o1 = tmp@;
        proof {
            assert(currency == m.currency);
            assert(o1 == o0 + p1);
        }
        out.append(&mut tmp);
        proof {
            assert(Self::enc_model(m) == p1);
            assert(o0 + p1 =~= p1);
            assert(out@ == old(out)@ + Self::enc_model(m));
        }
        Ok(())
    }

    proof fn lemma_dec_enc(m: EnterArena, rest: Seq<u8>) {
        let e1 = <u32 as NetworkAdapter>::enc_model(m.currency);
        let p1 = e1;
        assert(Self::enc_model(m) == p1);
        let r1 = rest;
        let b = Self::enc_model(m) + rest;
        assert(b == e1 + r1);
        <u32 as NetworkAdapter>::lemma_dec_enc(m.currency, r1);
        assert(Self::enc_model(m).len() == e1.len());
        assert(EnterArena { currency: m.currency } =~= m);
    }

    proof fn lemma_enc_dec(b: Seq<u8>, m: EnterArena, n: int) {
        let (g1, n1) = <u32 as NetworkAdapter>::dec(b)->Ok_0;
        <u32 as NetworkAdapter>::lemma_enc_dec(b, g1, n1);
        assert(n == n1);
        assert(m.currency == g1);
        if Self::canon(b) {
            let s1 = n1;
            let q1 = <u32 as NetworkAdapter>::enc_model(m.currency);
            assert(q1 == b.take(s1));
            assert(Self::enc_model(m) == q1);
            assert(Self::enc_model(m) == b.take(n));
        }
    }
}

#[verifier::ext_equal]
#[derive(Debug, PartialEq, Clone)]
pub struct Escape {
}

impl NetworkAdapter for Escape {
    type Model = Escape;

    open spec fn model(self) -> Escape {
        self
    }

    open spec fn enc_model(m: Escape) -> Seq<u8> {
        Seq::empty()
    }

    open spec fn valid_model(m: Escape) -> bool {
        true
    }

    closed spec fn dec(b: Seq<u8>) -> Result<(Escape, int), Error> {
        Ok((Escape {  }, 0))
    }

    closed spec fn canon(b: Seq<u8>) -> bool {
        true
    }

    fn get_be(r: &mut Reader) -> (res: Result<Escape, Error>) {
        let ghost b = old(r).remaining_bytes();
        proof {
            assert(b.skip(0) =~= b);
        }
        Ok(Escape {  })
    }

    fn put_be(self, out: &mut Vec<u8>) -> (res: Result<(), Error>) {
        let ghost m = self.model();
        let Escape {  } = self;
        let mut tmp: Vec<u8> = Vec::new();
        let ghost o0 = tmp@;
        out.append(&mut tmp);
        proof {
            assert(out@ =~= old(out)@ + Self::enc_model(m));
        }
        Ok(())
    }

    proof fn lemma_dec_enc(m: Escape, rest: Seq<u8>) {
        assert(m =~= Escape {  });
    }

    proof fn lemma_enc_dec(b: Seq<u8>, m: Escape, n: int) {
        assert(m =~= Escape {  });
        assert(Self::enc_model(m) =~= b.take(0));
    }
}

#[verifier::ext_equal]
#[derive(Debug, PartialEq, Clone)]
pub struct GotoAck {
    pub time: u32,
}

impl NetworkAdapter for GotoAck {
    type Model = GotoAck;

    open spec fn model(self) -> GotoAck {
        self
    }

    open spec fn enc_model(m: GotoAck) -> Seq<u8> {
        <u32 as NetworkAdapter>::enc_model(m.time)
    }

    open spec fn valid_model(m: GotoAck) -> bool {
        <u32 as NetworkAdapter>::valid_model(m.time)
    }

    closed spec fn dec(b: Seq<u8>) -> Result<(GotoAck, int), Error> {
        match <u32 as NetworkAdapter>::dec(b) {
            Ok((g1, n1)) => {
                Ok((GotoAck { time: g1 }, n1))
            },
            Err(e) => Err(e),
        }
    }

    closed spec fn canon(b: Seq<u8>) -> bool {
        match <u32 as NetworkAdapter>::dec(b) {
            Ok((g1, n1)) => <u32 as NetworkAdapter>::canon(b) && {
                true
            },
            Err(e) => true,
        }
    }

    fn get_be(r: &mut Reader) -> (res: Result<GotoAck, Error>) {
        let ghost b = old(r).remaining_bytes();
        let save = r.position();
        let x1 = match <u32 as NetworkAdapter>::get_be(r) {
            Ok(v) => v,
            Err(e) => {
                r.seek(save);
                return Err(e);
            },
        };
        proof {
            let (g1, n1) = <u32 as NetworkAdapter>::dec(b)->Ok_0;
        }
        Ok(GotoAck { time: x1 })
    }

    fn put_be(self, out: &mut Vec<u8>) -> (res: Result<(), Error>) {
        let ghost m = self.model();
        let GotoAck { time } = self;
        let ghost e1 = <u32 as NetworkAdapter>::enc_model(m.time);
        let ghost p1 = e1;
        let mut tmp: Vec<u8> = Vec::new();
        let ghost o0 = tmp@;
        match time.put_be(&mut tmp) {
            Ok(()) => {},
            Err(e) => {
                return Err(e);
            },
        };
        let ghost o1 = tmp@;
        proof {
            assert(time == m.time);
            assert(o1 == o0 + p1);
        }
        out.append(&mut tmp);
        proof {
            assert(Self::enc_model(m) == p1);
            assert(o0 + p1 =~= p1);
            assert(out@ == old(out)@ + Self::enc_model(m));
        }
        Ok(())
    }

    proof fn lemma_dec_enc(m: GotoAck, rest: Seq<u8>) {
        let e1 = <u32 as NetworkAdapter>::enc_model(m.time);
        let p1 = e1;
        assert(Self::enc_model(m) == p1);
        let r1 = rest;
        let b = Self::enc_model(m) + rest;
        assert(b == e1 + r1);
        <u32 as NetworkAdapter>::lemma_dec_enc(m.time, r1);
        assert(Self::enc_model(m).len() == e1.len());
        assert(GotoAck { time: m.time } =~= m);
    }

    proof fn lemma_enc_dec(b: Seq<u8>, m: GotoAck, n: int) {
        let (g1, n1) = <u32 as NetworkAdapter>::dec(b)->Ok_0;
        <u32 as NetworkAdapter>::lemma_enc_dec(b, g1, n1);
        assert(n == n1);
        assert(m.time == g1);
        if Self::canon(b) {
            let s1 = n1;
            let q1 = <u32 as NetworkAdapter>::enc_model(m.time);
            assert(q1 == b.take(s1));
            assert(Self::enc_model(m) == q1);
            assert(Self::enc_model(m) == b.take(n));
        }
    }
}

#[verifier::ext_equal]
#[derive(Debug, PartialEq, Clone)]
pub struct GroundDamage {
    pub time: u32,
    pub pos: WorldPosData,
}

impl NetworkAdapter for GroundDamage {
    type Model = GroundDamage;

    open spec fn model(self) -> GroundDamage {
        self
    }

    open spec fn enc_model(m: GroundDamage) -> Seq<u8> {
        <u32 as NetworkAdapter>::enc_model(m.time) + <WorldPosData as NetworkAdapter>::enc_model(m.pos)
    }

    open spec fn valid_model(m: GroundDamage) -> bool {
        <u32 as NetworkAdapter>::valid_model(m.time) && <WorldPosData as NetworkAdapter>::valid_model(m.pos)
    }

    closed spec fn dec(b: Seq<u8>) -> Result<(GroundDamage, int), Error> {
        match <u32 as NetworkAdapter>::dec(b) {
            Ok((g1, n1)) => {
                let b1 = b.skip(n1);
                match <WorldPosData as NetworkAdapter>::dec(b1) {
                    Ok((g2, n2)) => {
                        Ok((GroundDamage { time: g1, pos: g2 }, n1 + n2))
                    },
                    Err(e) => Err(e),
                }
            },
            Err(e) => Err(e),
        }
    }

    closed spec fn canon(b: Seq<u8>) -> bool {
        match <u32 as NetworkAdapter>::dec(b) {
            Ok((g1, n1)) => <u32 as NetworkAdapter>::canon(b) && {
                let b1 = b.skip(n1);
                match <WorldPosData as NetworkAdapter>::dec(b1) {
                    Ok((g2, n2)) => <WorldPosData as NetworkAdapter>::canon(b1) && {
                        true
                    },
                    Err(e) => true,
                }
            },
            Err(e) => true,
        }
    }

    fn get_be(r: &mut Reader) -> (res: Result<GroundDamage, Error>) {
        let ghost b = old(r).remaining_bytes();
        let save = r.position();
        let x1 = match <u32 as NetworkAdapter>::get_be(r) {
            Ok(v) => v,
            Err(e) => {
                r.seek(save);
                return Err(e);
            },
        };
        let x2 = match <WorldPosData as NetworkAdapter>::get_be(r) {
            Ok(v) => v,
            Err(e) => {
                r.seek(save);
                return Err(e);
            },
        };
        proof {
            let (g1, n1) = <u32 as NetworkAdapter>::dec(b)->Ok_0;
            let b1 = b.skip(n1);
            let (g2, n2) = <WorldPosData as NetworkAdapter>::dec(b1)->Ok_0;
            lemma_skip_skip(b, n1, n2);
            assert(b1.skip(n2) == b.skip(n1 + n2));
        }
        Ok(GroundDamage { time: x1, pos: x2 })
    }

    fn put_be(self, out: &mut Vec<u8>) -> (res: Result<(), Error>) {
        let ghost m = self.model();
        let GroundDamage { time, pos } = self;
        let ghost e1 = <u32 as NetworkAdapter>::enc_model(m.time);
        let ghost e2 = <WorldPosData as NetworkAdapter>::enc_model(m.pos);
        let ghost p1 = e1;
        let ghost p2 = p1 + e2;
        let mut tmp: Vec<u8> = Vec::new();
        let ghost o0 = tmp@;
        match time.put_be(&mut tmp) {
            Ok(()) => {},
            Err(e) => {
                return Err(e);
            },
        };
        let ghost o1 = tmp@;
        proof {
            assert(time == m.time);
            assert(o1 == o0 + p1);
        }
        match pos.put_be(&mut tmp) {
            Ok(()) => {},
            Err(e) => {
                return Err(e);
            },
        };
        let ghost o2 = tmp@;
        proof {
            assert(pos == m.pos);
            lemma_seq_assoc(o0, p1, e2);
            assert(o2 == o0 + p2);
        }
        out.append(&mut tmp);
        proof {
            assert(Self::enc_model(m) == p2);
            assert(o0 + p2 =~= p2);
            assert(out@ == old(out)@ + Self::enc_model(m));
        }
        Ok(())
    }

    proof fn lemma_dec_enc(m: GroundDamage, rest: Seq<u8>) {
        let e1 = <u32 as NetworkAdapter>::enc_model(m.time);
        let e2 = <WorldPosData as NetworkAdapter>::enc_model(m.pos);
        let p1 = e1;
        let p2 = p1 + e2;
        assert(Self::enc_model(m) == p2);
        let r2 = rest;
        let r1 = e2 + r2;
        let b = Self::enc_model(m) + rest;
        lemma_seq_assoc(p1, e2, r2);
        assert(p2 + r2 == p1 + r1);
        assert(b == e1 + r1);
        <u32 as NetworkAdapter>::lemma_dec_enc(m.time, r1);
        <WorldPosData as NetworkAdapter>::lemma_dec_enc(m.pos, r2);
        let c1 = b.skip(e1.len() as int);
        lemma_skip_concat(e1, r1);
        assert(c1 == r1);
        assert(Self::enc_model(m).len() == e1.len() + e2.len());
        assert(GroundDamage { time: m.time, pos: m.pos } =~= m);
    }

    proof fn lemma_enc_dec(b: Seq<u8>, m: GroundDamage, n: int) {
        let (g1, n1) = <u32 as NetworkAdapter>::dec(b)->Ok_0;
        <u32 as NetworkAdapter>::lemma_enc_dec(b, g1, n1);
        let b1 = b.skip(n1);
        let (g2, n2) = <WorldPosData as NetworkAdapter>::dec(b1)->Ok_0;
        <WorldPosData as NetworkAdapter>::lemma_enc_dec(b1, g2, n2);
        assert(n == n1 + n2);
        assert(m.time == g1);
        assert(m.pos == g2);
        if Self::canon(b) {
            let s1 = n1;
            let s2 = s1 + n2;
            let q1 = <u32 as NetworkAdapter>::enc_model(m.time);
            assert(q1 == b.take(s1));
            lemma_take_concat(b, s1, n2);
            let q2 = q1 + <WorldPosData as NetworkAdapter>::enc_model(m.pos);
            assert(q2 == b.take(s2));
            assert(Self::enc_model(m) == q2);
            assert(Self::enc_model(m) == b.take(n));
        }
    }
}

#[verifier::ext_equal]
#[derive(Debug, PartialEq, Clone)]
pub struct GuildInvite {
    pub name: RLE<String, u16>,
}

/// The mathematical model of a decoded `GuildInvite`.
#[verifier::ext_equal]
pub struct GuildInviteModel {
    pub name: Seq<char>,
}

impl NetworkAdapter for GuildInvite {
    type Model = GuildInviteModel;

    open spec fn model(self) -> GuildInviteModel {
        GuildInviteModel {
            name: self.name.model(),
        }
    }

    open spec fn enc_model(m: GuildInviteModel) -> Seq<u8> {
        <RLE<String, u16> as NetworkAdapter>::enc_model(m.name)
    }

    open spec fn valid_model(m: GuildInviteModel) -> bool {
        <RLE<String, u16> as NetworkAdapter>::valid_model(m.name)
    }

    closed spec fn dec(b: Seq<u8>) -> Result<(GuildInviteModel, int), Error> {
        match <RLE<String, u16> as NetworkAdapter>::dec(b) {
            Ok((g1, n1)) => {
                Ok((GuildInviteModel { name: g1 }, n1))
            },
            Err(e) => Err(e),
        }
    }

    closed spec fn canon(b: Seq<u8>) -> bool {
        match <RLE<String, u16> as NetworkAdapter>::dec(b) {
            Ok((g1, n1)) => <RLE<String, u16> as NetworkAdapter>::canon(b) && {
                true
            },
            Err(e) => true,
        }
    }

    fn get_be(r: &mut Reader) -> (res: Result<GuildInvite, Error>) {
        let ghost b = old(r).remaining_bytes();
        let save = r.position();
        let x1 = match <RLE<String, u16> as NetworkAdapter>::get_be(r) {
            Ok(v) => v,
            Err(e) => {
                r.seek(save);
                return Err(e);
            },
        };
        proof {
            let (g1, n1) = <RLE<String, u16> as NetworkAdapter>::dec(b)->Ok_0;
        }
        Ok(GuildInvite { name: x1 })
    }

    fn put_be(self, out: &mut Vec<u8>) -> (res: Result<(), Error>) {
        let ghost m = self.model();
        let GuildInvite { name } = self;
        let ghost e1 = <RLE<String, u16> as NetworkAdapter>::enc_model(m.name);
        let ghost p1 = e1;
        let mut tmp: Vec<u8> = Vec::new();
        let ghost o0 = tmp@;
        match name.put_be(&mut tmp) {
            Ok(()) => {},
            Err(e) => {
                return Err(e);
            },
        };
        let ghost o1 = tmp@;
        proof {
            assert(name.model() == m.name);
            assert(o1 == o0 + p1);
        }
        out.append(&mut tmp);
        proof {
            assert(Self::enc_model(m) == p1);
            assert(o0 + p1 =~= p1);
            assert(out@ == old(out)@ + Self::enc_model(m));
        }
        Ok(())
    }

    proof fn lemma_dec_enc(m: GuildInviteModel, rest: Seq<u8>) {
        let e1 = <RLE<String, u16> as NetworkAdapter>::enc_model(m.name);
        let p1 = e1;
        assert(Self::enc_model(m) == p1);
        let r1 = rest;
        let b = Self::enc_model(m) + rest;
        assert(b == e1 + r1);
        <RLE<String, u16> as NetworkAdapter>::lemma_dec_enc(m.name, r1);
        assert(Self::enc_model(m).len() == e1.len());
        assert(GuildInviteModel { name: m.name } =~= m);
    }

    proof fn lemma_enc_dec(b: Seq<u8>, m: GuildInviteModel, n: int) {
        let (g1, n1) = <RLE<String, u16> as NetworkAdapter>::dec(b)->Ok_0;
        <RLE<String, u16> as NetworkAdapter>::lemma_enc_dec(b, g1, n1);
        assert(n == n1);
        assert(m.name == g1);
        if Self::canon(b) {
            let s1 = n1;
            let q1 = <RLE<String, u16> as NetworkAdapter>::enc_model(m.name);
            assert(q1 == b.take(s1));
            assert(Self::enc_model(m) == q1);
            assert(Self::enc_model(m) == b.take(n));
        }
    }
}

#[verifier::ext_equal]
#[derive(Debug, PartialEq, Clone)]
pub struct GuildRemove {
    pub name: RLE<String, u16>,
}

/// The mathematical model of a decoded `GuildRemove`.
#[verifier::ext_equal]
pub struct GuildRemoveModel {
    pub name: Seq<char>,
}

impl NetworkAdapter for GuildRemove {
    type Model = GuildRemoveModel;

    open spec fn model(self) -> GuildRemoveModel {
        GuildRemoveModel {
            name: self.name.model(),
        }
    }

    open spec fn enc_model(m: GuildRemoveModel) -> Seq<u8> {
        <RLE<String, u16> as NetworkAdapter>::enc_model(m.name)
    }

    open spec fn valid_model(m: GuildRemoveModel) -> bool {
        <RLE<String, u16> as NetworkAdapter>::valid_model(m.name)
    }

    closed spec fn dec(b: Seq<u8>) -> Result<(GuildRemoveModel, int), Error> {
        match <RLE<String, u16> as NetworkAdapter>::dec(b) {
            Ok((g1, n1)) => {
                Ok((GuildRemoveModel { name: g1 }, n1))
            },
            Err(e) => Err(e),
        }
    }

    closed spec fn canon(b: Seq<u8>) -> bool {
        match <RLE<String, u16> as NetworkAdapter>::dec(b) {
            Ok((g1, n1)) => <RLE<String, u16> as NetworkAdapter>::canon(b) && {
                true
            },
            Err(e) => true,
        }
    }

    fn get_be(r: &mut Reader) -> (res: Result<GuildRemove, Error>) {
        let ghost b = old(r).remaining_bytes();
        let save = r.position();
        let x1 = match <RLE<String, u16> as NetworkAdapter>::get_be(r) {
            Ok(v) => v,
            Err(e) => {
                r.seek(save);
                return Err(e);
            },
        };
        proof {
            let (g1, n1) = <RLE<String, u16> as NetworkAdapter>::dec(b)->Ok_0;
        }
        Ok(GuildRemove { name: x1 })
    }

    fn put_be(self, out: &mut Vec<u8>) -> (res: Result<(), Error>) {
        let ghost m = self.model();
        let GuildRemove { name } = self;
        let ghost e1 = <RLE<String, u16> as NetworkAdapter>::enc_model(m.name);
        let ghost p1 = e1;
        let mut tmp: Vec<u8> = Vec::new();
        let ghost o0 = tmp@;
        match name.put_be(&mut tmp) {
            Ok(()) => {},
            Err(e) => {
                return Err(e);
            },
        };
        let ghost o1 = tmp@;
        proof {
            assert(name.model() == m.name);
            assert(o1 == o0 + p1);
        }
        out.append(&mut tmp);
        proof {
            assert(Self::enc_model(m) == p1);
            assert(o0 + p1 =~= p1);
            assert(out@ == old(out)@ + Self::enc_model(m));
        }
        Ok(())
    }

    proof fn lemma_dec_enc(m: GuildRemoveModel, rest: Seq<u8>) {
        let e1 = <RLE<String, u16> as NetworkAdapter>::enc_model(m.name);
        let p1 = e1;
        assert(Self::enc_model(m) == p1);
        let r1 = rest;
        let b = Self::enc_model(m) + rest;
        assert(b == e1 + r1);
        <RLE<String, u16> as NetworkAdapter>::lemma_dec_enc(m.name, r1);
        assert(Self::enc_model(m).len() == e1.len());
        assert(GuildRemoveModel { name: m.name } =~= m);
    }

    proof fn lemma_enc_dec(b: Seq<u8>, m: GuildRemoveModel, n: int) {
        let (g1, n1) = <RLE<String, u16> as NetworkAdapter>::dec(b)->Ok_0;
        <RLE<String, u16> as NetworkAdapter>::lemma_enc_dec(b, g1, n1);
        assert(n == n1);
        assert(m.name == g1);
        if Self::canon(b) {
            let s1 = n1;
            let q1 = <RLE<String, u16> as NetworkAdapter>::enc_model(m.name);
            assert(q1 == b.take(s1));
            assert(Self::enc_model(m) == q1);
            assert(Self::enc_model(m) == b.take(n));
        }
    }
}

#[verifier::ext_equal]
#[derive(Debug, PartialEq, Clone)]
pub struct Hello {
    pub build_version: RLE<String, u16>,
    pub game_id: u32,
    pub guid: RLE<String, u16>,
    pub rand1: u32,
    pub password: RLE<String, u16>,
    pub rand2: u32,
    pub secret: RLE<String, u16>,
    pub key_time: u32,
    pub key: RLE<Vec<u8>, u16>,
    pub map_json: RLE<String, u32>,
    pub entry_tag: RLE<String, u16>,
    pub game_net: RLE<String, u16>,
    pub game_net_user_id: RLE<String, u16>,
    pub play_platform: RLE<String, u16>,
    pub platform_token: RLE<String, u16>,
    pub user_token: RLE<String, u16>,
}

/// The mathematical model of a decoded `Hello`.
#[verifier::ext_equal]
pub struct HelloModel {
    pub build_version: Seq<char>,
    pub game_id: u32,
    pub guid: Seq<char>,
    pub rand1: u32,
    pub password: Seq<char>,
    pub rand2: u32,
    pub secret: Seq<char>,
    pub key_time: u32,
    pub key: Seq<u8>,
    pub map_json: Seq<char>,
    pub entry_tag: Seq<char>,
    pub game_net: Seq<char>,
    pub game_net_user_id: Seq<char>,
    pub play_platform: Seq<char>,
    pub platform_token: Seq<char>,
    pub user_token: Seq<char>,
}

impl NetworkAdapter for Hello {
    type Model = HelloModel;

    open spec fn model(self) -> HelloModel {
        HelloModel {
            build_version: self.build_version.model(),
            game_id: self.game_id.model(),
            guid: self.guid.model(),
            rand1: self.rand1.model(),
            password: self.password.model(),
            rand2: self.rand2.model(),
            secret: self.secret.model(),
            key_time: self.key_time.model(),
            key: self.key.model(),
            map_json: self.map_json.model(),
            entry_tag: self.entry_tag.model(),
            game_net: self.game_net.model(),
            game_net_user_id: self.game_net_user_id.model(),
            play_platform: self.play_platform.model(),
            platform_token: self.platform_token.model(),
            user_token: self.user_token.model(),
        }
    }

    open spec fn enc_model(m: HelloModel) -> Seq<u8> {
        <RLE<String, u16> as NetworkAdapter>::enc_model(m.build_version) + <u32 as NetworkAdapter>::enc_model(m.game_id) + <RLE<String, u16> as NetworkAdapter>::enc_model(m.guid) + <u32 as NetworkAdapter>::enc_model(m.rand1) + <RLE<String, u16> as NetworkAdapter>::enc_model(m.password) + <u32 as NetworkAdapter>::enc_model(m.rand2) + <RLE<String, u16> as NetworkAdapter>::enc_model(m.secret) + <u32 as NetworkAdapter>::enc_model(m.key_time) + <RLE<Vec<u8>, u16> as NetworkAdapter>::enc_model(m.key) + <RLE<String, u32> as NetworkAdapter>::enc_model(m.map_json) + <RLE<String, u16> as NetworkAdapter>::enc_model(m.entry_tag) + <RLE<String, u16> as NetworkAdapter>::enc_model(m.game_net) + <RLE<String, u16> as NetworkAdapter>::enc_model(m.game_net_user_id) + <RLE<String, u16> as NetworkAdapter>::enc_model(m.play_platform) + <RLE<String, u16> as NetworkAdapter>::enc_model(m.platform_token) + <RLE<String, u16> as NetworkAdapter>::enc_model(m.user_token)
    }

    open spec fn valid_model(m: HelloModel) -> bool {
        <RLE<String, u16> as NetworkAdapter>::valid_model(m.build_version) && <u32 as NetworkAdapter>::valid_model(m.game_id) && <RLE<String, u16> as NetworkAdapter>::valid_model(m.guid) && <u32 as NetworkAdapter>::valid_model(m.rand1) && <RLE<String, u16> as NetworkAdapter>::valid_model(m.password) && <u32 as NetworkAdapter>::valid_model(m.rand2) && <RLE<String, u16> as NetworkAdapter>::valid_model(m.secret) && <u32 as NetworkAdapter>::valid_model(m.key_time) && <RLE<Vec<u8>, u16> as NetworkAdapter>::valid_model(m.key) && <RLE<String, u32> as NetworkAdapter>::valid_model(m.map_json) && <RLE<String, u16> as NetworkAdapter>::valid_model(m.entry_tag) && <RLE<String, u16> as NetworkAdapter>::valid_model(m.game_net) && <RLE<String, u16> as NetworkAdapter>::valid_model(m.game_net_user_id) && <RLE<String, u16> as NetworkAdapter>::valid_model(m.play_platform) && <RLE<String, u16> as NetworkAdapter>::valid_model(m.platform_token) && <RLE<String, u16> as NetworkAdapter>::valid_model(m.user_token)
    }

    closed spec fn dec(b: Seq<u8>) -> Result<(HelloModel, int), Error> {
        match <RLE<String, u16> as NetworkAdapter>::dec(b) {
            Ok((g1, n1)) => {
                let b1 = b.skip(n1);
                match <u32 as NetworkAdapter>::dec(b1) {
                    Ok((g2, n2)) => {
                        let b2 = b1.skip(n2);
                        match <RLE<String, u16> as NetworkAdapter>::dec(b2) {
                            Ok((g3, n3)) => {
                                let b3 = b2.skip(n3);
                                match <u32 as NetworkAdapter>::dec(b3) {
                                    Ok((g4, n4)) => {
                                        let b4 = b3.skip(n4);
                                        match <RLE<String, u16> as NetworkAdapter>::dec(b4) {
                                            Ok((g5, n5)) => {
                                                let b5 = b4.skip(n5);
                                                match <u32 as NetworkAdapter>::dec(b5) {
                                                    Ok((g6, n6)) => {
                                                        let b6 = b5.skip(n6);
                                                        match <RLE<String, u16> as NetworkAdapter>::dec(b6) {
                                                            Ok((g7, n7)) => {
                                                                let b7 = b6.skip(n7);
                                                                match <u32 as NetworkAdapter>::dec(b7) {
                                                                    Ok((g8, n8)) => {
                                                                        let b8 = b7.skip(n8);
                                                                        match <RLE<Vec<u8>, u16> as NetworkAdapter>::dec(b8) {
                                                                            Ok((g9, n9)) => {
                                                                                let b9 = b8.skip(n9);
                                                                                match <RLE<String, u32> as NetworkAdapter>::dec(b9) {
                                                                                    Ok((g10, n10)) => {
                                                                                        let b10 = b9.skip(n10);
                                                                                        match <RLE<String, u16> as NetworkAdapter>::dec(b10) {
                                                                                            Ok((g11, n11)) => {
                                                                                                let b11 = b10.skip(n11);
                                                                                                match <RLE<String, u16> as NetworkAdapter>::dec(b11) {
                                                                                                    Ok((g12, n12)) => {
                                                                                                        let b12 = b11.skip(n12);
                                                                                                        match <RLE<String, u16> as NetworkAdapter>::dec(b12) {
                                                                                                            Ok((g13, n13)) => {
                                                                                                                let b13 = b12.skip(n13);
                                                                                                                match <RLE<String, u16> as NetworkAdapter>::dec(b13) {
                                                                                                                    Ok((g14, n14)) => {
                                                                                                                        let b14 = b13.skip(n14);
                                                                                                                        match <RLE<String, u16> as NetworkAdapter>::dec(b14) {
                                                                                                                            Ok((g15, n15)) => {
                                                                                                                                let b15 = b14.skip(n15);
                                                                                                                                match <RLE<String, u16> as NetworkAdapter>::dec(b15) {
                                                                                                                                    Ok((g16, n16)) => {
                                                                                                                                        Ok((HelloModel { build_version: g1, game_id: g2, guid: g3, rand1: g4, password: g5, rand2: g6, secret: g7, key_time: g8, key: g9, map_json: g10, entry_tag: g11, game_net: g12, game_net_user_id: g13, play_platform: g14, platform_token: g15, user_token: g16 }, n1 + n2 + n3 + n4 + n5 + n6 + n7 + n8 + n9 + n10 + n11 + n12 + n13 + n14 + n15 + n16))
                                                                                                                                    },
                                                                                                                                    Err(e) => Err(e),
                                                                                                                                }
                                                                                                                            },
                                                                                                                            Err(e) => Err(e),
                                                                                                                        }
                                                                                                                    },
                                                                                                                    Err(e) => Err(e),
                                                                                                                }
                                                                                                            },
                                                                                                            Err(e) => Err(e),
                                                                                                        }
                                                                                                    },
                                                                                                    Err(e) => Err(e),
                                                                                                }
                                                                                            },
                                                                                            Err(e) => Err(e),
                                                                                        }
                                                                                    },
                                                                                    Err(e) => Err(e),
                                                                                }
                                                                            },
                                                                            Err(e) => Err(e),
                                                                        }
                                                                    },
                                                                    Err(e) => Err(e),
                                                                }
                                                            },
                                                            Err(e) => Err(e),
                                                        }
                                                    },
                                                    Err(e) => Err(e),
                                                }
                                            },
                                            Err(e) => Err(e),
                                        }
                                    },
                                    Err(e) => Err(e),
                                }
                            },
                            Err(e) => Err(e),
                        }
                    },
                    Err(e) => Err(e),
                }
            },
            Err(e) => Err(e),
        }
    }

    closed spec fn canon(b: Seq<u8>) -> bool {
        match <RLE<String, u16> as NetworkAdapter>::dec(b) {
            Ok((g1, n1)) => <RLE<String, u16> as NetworkAdapter>::canon(b) && {
                let b1 = b.skip(n1);
                match <u32 as NetworkAdapter>::dec(b1) {
                    Ok((g2, n2)) => <u32 as NetworkAdapter>::canon(b1) && {
                        let b2 = b1.skip(n2);
                        match <RLE<String, u16> as NetworkAdapter>::dec(b2) {
                            Ok((g3, n3)) => <RLE<String, u16> as NetworkAdapter>::canon(b2) && {
                                let b3 = b2.skip(n3);
                                match <u32 as NetworkAdapter>::dec(b3) {
                                    Ok((g4, n4)) => <u32 as NetworkAdapter>::canon(b3) && {
                                        let b4 = b3.skip(n4);
                                        match <RLE<String, u16> as NetworkAdapter>::dec(b4) {
                                            Ok((g5, n5)) => <RLE<String, u16> as NetworkAdapter>::canon(b4) && {
                                                let b5 = b4.skip(n5);
                                                match <u32 as NetworkAdapter>::dec(b5) {
                                                    Ok((g6, n6)) => <u32 as NetworkAdapter>::canon(b5) && {
                                                        let b6 = b5.skip(n6);
                                                        match <RLE<String, u16> as NetworkAdapter>::dec(b6) {
                                                            Ok((g7, n7)) => <RLE<String, u16> as NetworkAdapter>::canon(b6) && {
                                                                let b7 = b6.skip(n7);
                                                                match <u32 as NetworkAdapter>::dec(b7) {
                                                                    Ok((g8, n8)) => <u32 as NetworkAdapter>::canon(b7) && {
                                                                        let b8 = b7.skip(n8);
                                                                        match <RLE<Vec<u8>, u16> as NetworkAdapter>::dec(b8) {
                                                                            Ok((g9, n9)) => <RLE<Vec<u8>, u16> as NetworkAdapter>::canon(b8) && {
                                                                                let b9 = b8.skip(n9);
                                                                                match <RLE<String, u32> as NetworkAdapter>::dec(b9) {
                                                                                    Ok((g10, n10)) => <RLE<String, u32> as NetworkAdapter>::canon(b9) && {
                                                                                        let b10 = b9.skip(n10);
                                                                                        match <RLE<String, u16> as NetworkAdapter>::dec(b10) {
                                                                                            Ok((g11, n11)) => <RLE<String, u16> as NetworkAdapter>::canon(b10) && {
                                                                                                let b11 = b10.skip(n11);
                                                                                                match <RLE<String, u16> as NetworkAdapter>::dec(b11) {
                                                                                                    Ok((g12, n12)) => <RLE<String, u16> as NetworkAdapter>::canon(b11) && {
                                                                                                        let b12 = b11.skip(n12);
                                                                                                        match <RLE<String, u16> as NetworkAdapter>::dec(b12) {
                                                                                                            Ok((g13, n13)) => <RLE<String, u16> as NetworkAdapter>::canon(b12) && {
                                                                                                                let b13 = b12.skip(n13);
                                                                                                                match <RLE<String, u16> as NetworkAdapter>::dec(b13) {
                                                                                                                    Ok((g14, n14)) => <RLE<String, u16> as NetworkAdapter>::canon(b13) && {
                                                                                                                        let b14 = b13.skip(n14);
                                                                                                                        match <RLE<String, u16> as NetworkAdapter>::dec(b14) {
                                                                                                                            Ok((g15, n15)) => <RLE<String, u16> as NetworkAdapter>::canon(b14) && {
                                                                                                                                let b15 = b14.skip(n15);
                                                                                                                                match <RLE<String, u16> as NetworkAdapter>::dec(b15) {
                                                                                                                                    Ok((g16, n16)) => <RLE<String, u16> as NetworkAdapter>::canon(b15) && {
                                                                                                                                        true
                                                                                                                                    },
                                                                                                                                    Err(e) => true,
                                                                                                                                }
                                                                                                                            },
                                                                                                                            Err(e) => true,
                                                                                                                        }
                                                                                                                    },
                                                                                                                    Err(e) => true,
                                                                                                                }
                                                                                                            },
                                                                                                            Err(e) => true,
                                                                                                        }
                                                                                                    },
                                                                                                    Err(e) => true,
                                                                                                }
                                                                                            },
                                                                                            Err(e) => true,
                                                                                        }
                                                                                    },
                                                                                    Err(e) => true,
                                                                                }
                                                                            },
                                                                            Err(e) => true,
                                                                        }
                                                                    },
                                                                    Err(e) => true,
                                                                }
                                                            },
                                                            Err(e) => true,
                                                        }
                                                    },
                                                    Err(e) => true,
                                                }
                                            },
                                            Err(e) => true,
                                        }
                                    },
                                    Err(e) => true,
                                }
                            },
                            Err(e) => true,
                        }
                    },
                    Err(e) => true,
                }
            },
            Err(e) => true,
        }
    }

    #[verifier::rlimit(100)]
    #[verifier::spinoff_prover]
    fn get_be(r: &mut Reader) -> (res: Result<Hello, Error>) {
        let ghost b = old(r).remaining_bytes();
        let save = r.position();
        let x1 = match <RLE<String, u16> as NetworkAdapter>::get_be(r) {
            Ok(v) => v,
            Err(e) => {
                r.seek(save);
                return Err(e);
            },
        };
        let x2 = match <u32 as NetworkAdapter>::get_be(r) {
            Ok(v) => v,
            Err(e) => {
                r.seek(save);
                return Err(e);
            },
        };
        let x3 = match <RLE<String, u16> as NetworkAdapter>::get_be(r) {
            Ok(v) => v,
            Err(e) => {
                r.seek(save);
                return Err(e);
            },
        };
        let x4 = match <u32 as NetworkAdapter>::get_be(r) {
            Ok(v) => v,
            Err(e) => {
                r.seek(save);
                return Err(e);
            },
        };
        let x5 = match <RLE<String, u16> as NetworkAdapter>::get_be(r) {
            Ok(v) => v,
            Err(e) => {
                r.seek(save);
                return Err(e);
            },
        };
        let x6 = match <u32 as NetworkAdapter>::get_be(r) {
            Ok(v) => v,
            Err(e) => {
                r.seek(save);
                return Err(e);
            },
        };
        let x7 = match <RLE<String, u16> as NetworkAdapter>::get_be(r) {
            Ok(v) => v,
            Err(e) => {
                r.seek(save);
                return Err(e);
            },
        };
        let x8 = match <u32 as NetworkAdapter>::get_be(r) {
            Ok(v) => v,
            Err(e) => {
                r.seek(save);
                return Err(e);
            },
        };
        let x9 = match <RLE<Vec<u8>, u16> as NetworkAdapter>::get_be(r) {
            Ok(v) => v,
            Err(e) => {
                r.seek(save);
                return Err(e);
            },
        };
        let x10 = match <RLE<String, u32> as NetworkAdapter>::get_be(r) {
            Ok(v) => v,
            Err(e) => {
                r.seek(save);
                return Err(e);
            },
        };
        let x11 = match <RLE<String, u16> as NetworkAdapter>::get_be(r) {
            Ok(v) => v,
            Err(e) => {
                r.seek(save);
                return Err(e);
            },
        };
        let x12 = match <RLE<String, u16> as NetworkAdapter>::get_be(r) {
            Ok(v) => v,
            Err(e) => {
                r.seek(save);
                return Err(e);
            },
        };
        let x13 = match <RLE<String, u16> as NetworkAdapter>::get_be(r) {
            Ok(v) => v,
            Err(e) => {
                r.seek(save);
                return Err(e);
            },
        };
        let x14 = match <RLE<String, u16> as NetworkAdapter>::get_be(r) {
            Ok(v) => v,
            Err(e) => {
                r.seek(save);
                return Err(e);
            },
        };
        let x15 = match <RLE<String, u16> as NetworkAdapter>::get_be(r) {
            Ok(v) => v,
            Err(e) => {
                r.seek(save);
                return Err(e);
            },
        };
        let x16 = match <RLE<String, u16> as NetworkAdapter>::get_be(r) {
            Ok(v) => v,
            Err(e) => {
                r.seek(save);
                return Err(e);
            },
        };
        proof {
            let (g1, n1) = <RLE<String, u16> as NetworkAdapter>::dec(b)->Ok_0;
            let b1 = b.skip(n1);
            let (g2, n2) = <u32 as NetworkAdapter>::dec(b1)->Ok_0;
            let b2 = b1.skip(n2);
            let (g3, n3) = <RLE<String, u16> as NetworkAdapter>::dec(b2)->Ok_0;
            let b3 = b2.skip(n3);
            let (g4, n4) = <u32 as NetworkAdapter>::dec(b3)->Ok_0;
            let b4 = b3.skip(n4);
            let (g5, n5) = <RLE<String, u16> as NetworkAdapter>::dec(b4)->Ok_0;
            let b5 = b4.skip(n5);
            let (g6, n6) = <u32 as NetworkAdapter>::dec(b5)->Ok_0;
            let b6 = b5.skip(n6);
            let (g7, n7) = <RLE<String, u16> as NetworkAdapter>::dec(b6)->Ok_0;
            let b7 = b6.skip(n7);
            let (g8, n8) = <u32 as NetworkAdapter>::dec(b7)->Ok_0;
            let b8 = b7.skip(n8);
            let (g9, n9) = <RLE<Vec<u8>, u16> as NetworkAdapter>::dec(b8)->Ok_0;
            let b9 = b8.skip(n9);
            let (g10, n10) = <RLE<String, u32> as NetworkAdapter>::dec(b9)->Ok_0;
            let b10 = b9.skip(n10);
            let (g11, n11) = <RLE<String, u16> as NetworkAdapter>::dec(b10)->Ok_0;
            let b11 = b10.skip(n11);
            let (g12, n12) = <RLE<String, u16> as NetworkAdapter>::dec(b11)->Ok_0;
            let b12 = b11.skip(n12);
            let (g13, n13) = <RLE<String, u16> as NetworkAdapter>::dec(b12)->Ok_0;
            let b13 = b12.skip(n13);
            let (g14, n14) = <RLE<String, u16> as NetworkAdapter>::dec(b13)->Ok_0;
            let b14 = b13.skip(n14);
            let (g15, n15) = <RLE<String, u16> as NetworkAdapter>::dec(b14)->Ok_0;
            let b15 = b14.skip(n15);
            let (g16, n16) = <RLE<String, u16> as NetworkAdapter>::dec(b15)->Ok_0;
            lemma_skip_skip(b, n1, n2);
            assert(b2 == b.skip(n1 + n2));
            lemma_skip_skip(b, n1 + n2, n3);
            assert(b3 == b.skip(n1 + n2 + n3));
            lemma_skip_skip(b, n1 + n2 + n3, n4);
            assert(b4 == b.skip(n1 + n2 + n3 + n4));
            lemma_skip_skip(b, n1 + n2 + n3 + n4, n5);
            assert(b5 == b.skip(n1 + n2 + n3 + n4 + n5));
            lemma_skip_skip(b, n1 + n2 + n3 + n4 + n5, n6);
            assert(b6 == b.skip(n1 + n2 + n3 + n4 + n5 + n6));
            lemma_skip_skip(b, n1 + n2 + n3 + n4 + n5 + n6, n7);
            assert(b7 == b.skip(n1 + n2 + n3 + n4 + n5 + n6 + n7));
            lemma_skip_skip(b, n1 + n2 + n3 + n4 + n5 + n6 + n7, n8);
            assert(b8 == b.skip(n1 + n2 + n3 + n4 + n5 + n6 + n7 + n8));
            lemma_skip_skip(b, n1 + n2 + n3 + n4 + n5 + n6 + n7 + n8, n9);
            assert(b9 == b.skip(n1 + n2 + n3 + n4 + n5 + n6 + n7 + n8 + n9));
            lemma_skip_skip(b, n1 + n2 + n3 + n4 + n5 + n6 + n7 + n8 + n9, n10);
            assert(b10 == b.skip(n1 + n2 + n3 + n4 + n5 + n6 + n7 + n8 + n9 + n10));
            lemma_skip_skip(b, n1 + n2 + n3 + n4 + n5 + n6 + n7 + n8 + n9 + n10, n11);
            assert(b11 == b.skip(n1 + n2 + n3 + n4 + n5 + n6 + n7 + n8 + n9 + n10 + n11));
            lemma_skip_skip(b, n1 + n2 + n3 + n4 + n5 + n6 + n7 + n8 + n9 + n10 + n11, n12);
            assert(b12 == b.skip(n1 + n2 + n3 + n4 + n5 + n6 + n7 + n8 + n9 + n10 + n11 + n12));
            lemma_skip_skip(b, n1 + n2 + n3 + n4 + n5 + n6 + n7 + n8 + n9 + n10 + n11 + n12, n13);
            assert(b13 == b.skip(n1 + n2 + n3 + n4 + n5 + n6 + n7 + n8 + n9 + n10 + n11 + n12 + n13));
            lemma_skip_skip(b, n1 + n2 + n3 + n4 + n5 + n6 + n7 + n8 + n9 + n10 + n11 + n12 + n13, n14);
            assert(b14 == b.skip(n1 + n2 + n3 + n4 + n5 + n6 + n7 + n8 + n9 + n10 + n11 + n12 + n13 + n14));
            lemma_skip_skip(b, n1 + n2 + n3 + n4 + n5 + n6 + n7 + n8 + n9 + n10 + n11 + n12 + n13 + n14, n15);
            assert(b15 == b.skip(n1 + n2 + n3 + n4 + n5 + n6 + n7 + n8 + n9 + n10 + n11 + n12 + n13 + n14 + n15));
            lemma_skip_skip(b, n1 + n2 + n3 + n4 + n5 + n6 + n7 + n8 + n9 + n10 + n11 + n12 + n13 + n14 + n15, n16);
            assert(b15.skip(n16) == b.skip(n1 + n2 + n3 + n4 + n5 + n6 + n7 + n8 + n9 + n10 + n11 + n12 + n13 + n14 + n15 + n16));
        }
        Ok(Hello { build_version: x1, game_id: x2, guid: x3, rand1: x4, password: x5, rand2: x6, secret: x7, key_time: x8, key: x9, map_json: x10, entry_tag: x11, game_net: x12, game_net_user_id: x13, play_platform: x14, platform_token: x15, user_token: x16 })
    }

    #[verifier::rlimit(100)]
    #[verifier::spinoff_prover]
    fn put_be(self, out: &mut Vec<u8>) -> (res: Result<(), Error>) {
        let ghost m = self.model();
        let Hello { build_version, game_id, guid, rand1, password, rand2, secret, key_time, key, map_json, entry_tag, game_net, game_net_user_id, play_platform, platform_token, user_token } = self;
        let ghost e1 = <RLE<String, u16> as NetworkAdapter>::enc_model(m.build_version);
        let ghost e2 = <u32 as NetworkAdapter>::enc_model(m.game_id);
        let ghost e3 = <RLE<String, u16> as NetworkAdapter>::enc_model(m.guid);
        let ghost e4 = <u32 as NetworkAdapter>::enc_model(m.rand1);
        let ghost e5 = <RLE<String, u16> as NetworkAdapter>::enc_model(m.password);
        let ghost e6 = <u32 as NetworkAdapter>::enc_model(m.rand2);
        let ghost e7 = <RLE<String, u16> as NetworkAdapter>::enc_model(m.secret);
        let ghost e8 = <u32 as NetworkAdapter>::enc_model(m.key_time);
        let ghost e9 = <RLE<Vec<u8>, u16> as NetworkAdapter>::enc_model(m.key);
        let ghost e10 = <RLE<String, u32> as NetworkAdapter>::enc_model(m.map_json);
        let ghost e11 = <RLE<String, u16> as NetworkAdapter>::enc_model(m.entry_tag);
        let ghost e12 = <RLE<String, u16> as NetworkAdapter>::enc_model(m.game_net);
        let ghost e13 = <RLE<String, u16> as NetworkAdapter>::enc_model(m.game_net_user_id);
        let ghost e14 = <RLE<String, u16> as NetworkAdapter>::enc_model(m.play_platform);
        let ghost e15 = <RLE<String, u16> as NetworkAdapter>::enc_model(m.platform_token);
        let ghost e16 = <RLE<String, u16> as NetworkAdapter>::enc_model(m.user_token);
        let ghost p1 = e1;
        let ghost p2 = p1 + e2;
        let ghost p3 = p2 + e3;
        let ghost p4 = p3 + e4;
        let ghost p5 = p4 + e5;
        let ghost p6 = p5 + e6;
        let ghost p7 = p6 + e7;
        let ghost p8 = p7 + e8;
        let ghost p9 = p8 + e9;
        let ghost p10 = p9 + e10;
        let ghost p11 = p10 + e11;
        let ghost p12 = p11 + e12;
        let ghost p13 = p12 + e13;
        let ghost p14 = p13 + e14;
        let ghost p15 = p14 + e15;
        let ghost p16 = p15 + e16;
        let mut tmp: Vec<u8> = Vec::new();
        let ghost o0 = tmp@;
        match build_version.put_be(&mut tmp) {
            Ok(()) => {},
            Err(e) => {
                return Err(e);
            },
        };
        let ghost o1 = tmp@;
        proof {
            assert(build_version.model() == m.build_version);
            assert(o1 == o0 + p1);
        }
        match game_id.put_be(&mut tmp) {
            Ok(()) => {},
            Err(e) => {
                return Err(e);
            },
        };
        let ghost o2 = tmp@;
        proof {
            assert(game_id.model() == m.game_id);
            lemma_seq_assoc(o0, p1, e2);
            assert(o2 == o0 + p2);
        }
        match guid.put_be(&mut tmp) {
            Ok(()) => {},
            Err(e) => {
                return Err(e);
            },
        };
        let ghost o3 = tmp@;
        proof {
            assert(guid.model() == m.guid);
            lemma_seq_assoc(o0, p2, e3);
            assert(o3 == o0 + p3);
        }
        match rand1.put_be(&mut tmp) {
            Ok(()) => {},
            Err(e) => {
                return Err(e);
            },
        };
        let ghost o4 = tmp@;
        proof {
            assert(rand1.model() == m.rand1);
            lemma_seq_assoc(o0, p3, e4);
            assert(o4 == o0 + p4);
        }
        match password.put_be(&mut tmp) {
            Ok(()) => {},
            Err(e) => {
                return Err(e);
            },
        };
        let ghost o5 = tmp@;
        proof {
            assert(password.model() == m.password);
            lemma_seq_assoc(o0, p4, e5);
            assert(o5 == o0 + p5);
        }
        match rand2.put_be(&mut tmp) {
            Ok(()) => {},
            Err(e) => {
                return Err(e);
            },
        };
        let ghost o6 = tmp@;
        proof {
            assert(rand2.model() == m.rand2);
            lemma_seq_assoc(o0, p5, e6);
            assert(o6 == o0 + p6);
        }
        match secret.put_be(&mut tmp) {
            Ok(()) => {},
            Err(e) => {
                return Err(e);
            },
        };
        let ghost o7 = tmp@;
        proof {
            assert(secret.model() == m.secret);
            lemma_seq_assoc(o0, p6, e7);
            assert(o7 == o0 + p7);
        }
        match key_time.put_be(&mut tmp) {
            Ok(()) => {},
            Err(e) => {
                return Err(e);
            },
        };
        let ghost o8 = tmp@;
        proof {
            assert(key_time.model() == m.key_time);
            lemma_seq_assoc(o0, p7, e8);
            assert(o8 == o0 + p8);
        }
        match key.put_be(&mut tmp) {
            Ok(()) => {},
            Err(e) => {
                return Err(e);
            },
        };
        let ghost o9 = tmp@;
        proof {
            assert(key.model() == m.key);
            lemma_seq_assoc(o0, p8, e9);
            assert(o9 == o0 + p9);
        }
        match map_json.put_be(&mut tmp) {
            Ok(()) => {},
            Err(e) => {
                return Err(e);
            },
        };
        let ghost o10 = tmp@;
        proof {
            assert(map_json.model() == m.map_json);
            lemma_seq_assoc(o0, p9, e10);
            assert(o10 == o0 + p10);
        }
        match entry_tag.put_be(&mut tmp) {
            Ok(()) => {},
            Err(e) => {
                return Err(e);
            },
        };
        let ghost o11 = tmp@;
        proof {
            assert(entry_tag.model() == m.entry_tag);
            lemma_seq_assoc(o0, p10, e11);
            assert(o11 == o0 + p11);
        }
        match game_net.put_be(&mut tmp) {
            Ok(()) => {},
            Err(e) => {
                return Err(e);
            },
        };
        let ghost o12 = tmp@;
        proof {
            assert(game_net.model() == m.game_net);
            lemma_seq_assoc(o0, p11, e12);
            assert(o12 == o0 + p12);
        }
        match game_net_user_id.put_be(&mut tmp) {
            Ok(()) => {},
            Err(e) => {
                return Err(e);
            },
        };
        let ghost o13 = tmp@;
        proof {
            assert(game_net_user_id.model() == m.game_net_user_id);
            lemma_seq_assoc(o0, p12, e13);
            assert(o13 == o0 + p13);
        }
        match play_platform.put_be(&mut tmp) {
            Ok(()) => {},
            Err(e) => {
                return Err(e);
            },
        };
        let ghost o14 = tmp@;
        proof {
            assert(play_platform.model() == m.play_platform);
            lemma_seq_assoc(o0, p13, e14);
            assert(o14 == o0 + p14);
        }
        match platform_token.put_be(&mut tmp) {
            Ok(()) => {},
            Err(e) => {
                return Err(e);
            },
        };
        let ghost o15 = tmp@;
        proof {
            assert(platform_token.model() == m.platform_token);
            lemma_seq_assoc(o0, p14, e15);
            assert(o15 == o0 + p15);
        }
        match user_token.put_be(&mut tmp) {
            Ok(()) => {},
            Err(e) => {
                return Err(e);
            },
        };
        let ghost o16 = tmp@;
        proof {
            assert(user_token.model() == m.user_token);
            lemma_seq_assoc(o0, p15, e16);
            assert(o16 == o0 + p16);
        }
        out.append(&mut tmp);
        proof {
            assert(Self::enc_model(m) == p16);
            assert(o0 + p16 =~= p16);
            assert(out@ == old(out)@ + Self::enc_model(m));
        }
        Ok(())
    }

    #[verifier::rlimit(100)]
    #[verifier::spinoff_prover]
    proof fn lemma_dec_enc(m: HelloModel, rest: Seq<u8>) {
        let e1 = <RLE<String, u16> as NetworkAdapter>::enc_model(m.build_version);
        let e2 = <u32 as NetworkAdapter>::enc_model(m.game_id);
        let e3 = <RLE<String, u16> as NetworkAdapter>::enc_model(m.guid);
        let e4 = <u32 as NetworkAdapter>::enc_model(m.rand1);
        let e5 = <RLE<String, u16> as NetworkAdapter>::enc_model(m.password);
        let e6 = <u32 as NetworkAdapter>::enc_model(m.rand2);
        let e7 = <RLE<String, u16> as NetworkAdapter>::enc_model(m.secret);
        let e8 = <u32 as NetworkAdapter>::enc_model(m.key_time);
        let e9 = <RLE<Vec<u8>, u16> as NetworkAdapter>::enc_model(m.key);
        let e10 = <RLE<String, u32> as NetworkAdapter>::enc_model(m.map_json);
        let e11 = <RLE<String, u16> as NetworkAdapter>::enc_model(m.entry_tag);
        let e12 = <RLE<String, u16> as NetworkAdapter>::enc_model(m.game_net);
        let e13 = <RLE<String, u16> as NetworkAdapter>::enc_model(m.game_net_user_id);
        let e14 = <RLE<String, u16> as NetworkAdapter>::enc_model(m.play_platform);
        let e15 = <RLE<String, u16> as NetworkAdapter>::enc_model(m.platform_token);
        let e16 = <RLE<String, u16> as NetworkAdapter>::enc_model(m.user_token);
        let p1 = e1;
        let p2 = p1 + e2;
        let p3 = p2 + e3;
        let p4 = p3 + e4;
        let p5 = p4 + e5;
        let p6 = p5 + e6;
        let p7 = p6 + e7;
        let p8 = p7 + e8;
        let p9 = p8 + e9;
        let p10 = p9 + e10;
        let p11 = p10 + e11;
        let p12 = p11 + e12;
        let p13 = p12 + e13;
        let p14 = p13 + e14;
        let p15 = p14 + e15;
        let p16 = p15 + e16;
        assert(Self::enc_model(m) == p16);
        let r16 = rest;
        let r15 = e16 + r16;
        let r14 = e15 + r15;
        let r13 = e14 + r14;
        let r12 = e13 + r13;
        let r11 = e12 + r12;
        let r10 = e11 + r11;
        let r9 = e10 + r10;
        let r8 = e9 + r9;
        let r7 = e8 + r8;
        let r6 = e7 + r7;
        let r5 = e6 + r6;
        let r4 = e5 + r5;
        let r3 = e4 + r4;
        let r2 = e3 + r3;
        let r1 = e2 + r2;
        let b = Self::enc_model(m) + rest;
        lemma_seq_assoc(p15, e16, r16);
        assert(p16 + r16 == p15 + r15);
        lemma_seq_assoc(p14, e15, r15);
        assert(p15 + r15 == p14 + r14);
        lemma_seq_assoc(p13, e14, r14);
        assert(p14 + r14 == p13 + r13);
        lemma_seq_assoc(p12, e13, r13);
        assert(p13 + r13 == p12 + r12);
        lemma_seq_assoc(p11, e12, r12);
        assert(p12 + r12 == p11 + r11);
        lemma_seq_assoc(p10, e11, r11);
        assert(p11 + r11 == p10 + r10);
        lemma_seq_assoc(p9, e10, r10);
        assert(p10 + r10 == p9 + r9);
        lemma_seq_assoc(p8, e9, r9);
        assert(p9 + r9 == p8 + r8);
        lemma_seq_assoc(p7, e8, r8);
        assert(p8 + r8 == p7 + r7);
        lemma_seq_assoc(p6, e7, r7);
        assert(p7 + r7 == p6 + r6);
        lemma_seq_assoc(p5, e6, r6);
        assert(p6 + r6 == p5 + r5);
        lemma_seq_assoc(p4, e5, r5);
        assert(p5 + r5 == p4 + r4);
        lemma_seq_assoc(p3, e4, r4);
        assert(p4 + r4 == p3 + r3);
        lemma_seq_assoc(p2, e3, r3);
        assert(p3 + r3 == p2 + r2);
        lemma_seq_assoc(p1, e2, r2);
        assert(p2 + r2 == p1 + r1);
        assert(b == e1 + r1);
        <RLE<String, u16> as NetworkAdapter>::lemma_dec_enc(m.build_version, r1);
        <u32 as NetworkAdapter>::lemma_dec_enc(m.game_id, r2);
        <RLE<String, u16> as NetworkAdapter>::lemma_dec_enc(m.guid, r3);
        <u32 as NetworkAdapter>::lemma_dec_enc(m.rand1, r4);
        <RLE<String, u16> as NetworkAdapter>::lemma_dec_enc(m.password, r5);
        <u32 as NetworkAdapter>::lemma_dec_enc(m.rand2, r6);
        <RLE<String, u16> as NetworkAdapter>::lemma_dec_enc(m.secret, r7);
        <u32 as NetworkAdapter>::lemma_dec_enc(m.key_time, r8);
        <RLE<Vec<u8>, u16> as NetworkAdapter>::lemma_dec_enc(m.key, r9);
        <RLE<String, u32> as NetworkAdapter>::lemma_dec_enc(m.map_json, r10);
        <RLE<String, u16> as NetworkAdapter>::lemma_dec_enc(m.entry_tag, r11);
        <RLE<String, u16> as NetworkAdapter>::lemma_dec_enc(m.game_net, r12);
        <RLE<String, u16> as NetworkAdapter>::lemma_dec_enc(m.game_net_user_id, r13);
        <RLE<String, u16> as NetworkAdapter>::lemma_dec_enc(m.play_platform, r14);
        <RLE<String, u16> as NetworkAdapter>::lemma_dec_enc(m.platform_token, r15);
        <RLE<String, u16> as NetworkAdapter>::lemma_dec_enc(m.user_token, r16);
        let c1 = b.skip(e1.len() as int);
        lemma_skip_concat(e1, r1);
        assert(c1 == r1);
        let c2 = c1.skip(e2.len() as int);
        lemma_skip_concat(e2, r2);
        assert(c2 == r2);
        let c3 = c2.skip(e3.len() as int);
        lemma_skip_concat(e3, r3);
        assert(c3 == r3);
        let c4 = c3.skip(e4.len() as int);
        lemma_skip_concat(e4, r4);
        assert(c4 == r4);
        let c5 = c4.skip(e5.len() as int);
        lemma_skip_concat(e5, r5);
        assert(c5 == r5);
        let c6 = c5.skip(e6.len() as int);
        lemma_skip_concat(e6, r6);
        assert(c6 == r6);
        let c7 = c6.skip(e7.len() as int);
        lemma_skip_concat(e7, r7);
        assert(c7 == r7);
        let c8 = c7.skip(e8.len() as int);
        lemma_skip_concat(e8, r8);
        assert(c8 == r8);
        let c9 = c8.skip(e9.len() as int);
        lemma_skip_concat(e9, r9);
        assert(c9 == r9);
        let c10 = c9.skip(e10.len() as int);
        lemma_skip_concat(e10, r10);
        assert(c10 == r10);
        let c11 = c10.skip(e11.len() as int);
        lemma_skip_concat(e11, r11);
        assert(c11 == r11);
        let c12 = c11.skip(e12.len() as int);
        lemma_skip_concat(e12, r12);
        assert(c12 == r12);
        let c13 = c12.skip(e13.len() as int);
        lemma_skip_concat(e13, r13);
        assert(c13 == r13);
        let c14 = c13.skip(e14.len() as int);
        lemma_skip_concat(e14, r14);
        assert(c14 == r14);
        let c15 = c14.skip(e15.len() as int);
        lemma_skip_concat(e15, r15);
        assert(c15 == r15);
        assert(Self::enc_model(m).len() == e1.len() + e2.len() + e3.len() + e4.len() + e5.len() + e6.len() + e7.len() + e8.len() + e9.len() + e10.len() + e11.len() + e12.len() + e13.len() + e14.len() + e15.len() + e16.len());
        assert(HelloModel { build_version: m.build_version, game_id: m.game_id, guid: m.guid, rand1: m.rand1, password: m.password, rand2: m.rand2, secret: m.secret, key_time: m.key_time, key: m.key, map_json: m.map_json, entry_tag: m.entry_tag, game_net: m.game_net, game_net_user_id: m.game_net_user_id, play_platform: m.play_platform, platform_token: m.platform_token, user_token: m.user_token } =~= m);
    }

    #[verifier::rlimit(100)]
    #[verifier::spinoff_prover]
    proof fn lemma_enc_dec(b: Seq<u8>, m: HelloModel, n: int) {
        let (g1, n1) = <RLE<String, u16> as NetworkAdapter>::dec(b)->Ok_0;
        <RLE<String, u16> as NetworkAdapter>::lemma_enc_dec(b, g1, n1);
        let b1 = b.skip(n1);
        let (g2, n2) = <u32 as NetworkAdapter>::dec(b1)->Ok_0;
        <u32 as NetworkAdapter>::lemma_enc_dec(b1, g2, n2);
        let b2 = b1.skip(n2);
        let (g3, n3) = <RLE<String, u16> as NetworkAdapter>::dec(b2)->Ok_0;
        <RLE<String, u16> as NetworkAdapter>::lemma_enc_dec(b2, g3, n3);
        let b3 = b2.skip(n3);
        let (g4, n4) = <u32 as NetworkAdapter>::dec(b3)->Ok_0;
        <u32 as NetworkAdapter>::lemma_enc_dec(b3, g4, n4);
        let b4 = b3.skip(n4);
        let (g5, n5) = <RLE<String, u16> as NetworkAdapter>::dec(b4)->Ok_0;
        <RLE<String, u16> as NetworkAdapter>::lemma_enc_dec(b4, g5, n5);
        let b5 = b4.skip(n5);
        let (g6, n6) = <u32 as NetworkAdapter>::dec(b5)->Ok_0;
        <u32 as NetworkAdapter>::lemma_enc_dec(b5, g6, n6);
        let b6 = b5.skip(n6);
        let (g7, n7) = <RLE<String, u16> as NetworkAdapter>::dec(b6)->Ok_0;
        <RLE<String, u16> as NetworkAdapter>::lemma_enc_dec(b6, g7, n7);
        let b7 = b6.skip(n7);
        let (g8, n8) = <u32 as NetworkAdapter>::dec(b7)->Ok_0;
        <u32 as NetworkAdapter>::lemma_enc_dec(b7, g8, n8);
        let b8 = b7.skip(n8);
        let (g9, n9) = <RLE<Vec<u8>, u16> as NetworkAdapter>::dec(b8)->Ok_0;
        <RLE<Vec<u8>, u16> as NetworkAdapter>::lemma_enc_dec(b8, g9, n9);
        let b9 = b8.skip(n9);
        let (g10, n10) = <RLE<String, u32> as NetworkAdapter>::dec(b9)->Ok_0;
        <RLE<String, u32> as NetworkAdapter>::lemma_enc_dec(b9, g10, n10);
        let b10 = b9.skip(n10);
        let (g11, n11) = <RLE<String, u16> as NetworkAdapter>::dec(b10)->Ok_0;
        <RLE<String, u16> as NetworkAdapter>::lemma_enc_dec(b10, g11, n11);
        let b11 = b10.skip(n11);
        let (g12, n12) = <RLE<String, u16> as NetworkAdapter>::dec(b11)->Ok_0;
        <RLE<String, u16> as NetworkAdapter>::lemma_enc_dec(b11, g12, n12);
        let b12 = b11.skip(n12);
        let (g13, n13) = <RLE<String, u16> as NetworkAdapter>::dec(b12)->Ok_0;
        <RLE<String, u16> as NetworkAdapter>::lemma_enc_dec(b12, g13, n13);
        let b13 = b12.skip(n13);
        let (g14, n14) = <RLE<String, u16> as NetworkAdapter>::dec(b13)->Ok_0;
        <RLE<String, u16> as NetworkAdapter>::lemma_enc_dec(b13, g14, n14);
        let b14 = b13.skip(n14);
        let (g15, n15) = <RLE<String, u16> as NetworkAdapter>::dec(b14)->Ok_0;
        <RLE<String, u16> as NetworkAdapter>::lemma_enc_dec(b14, g15, n15);
        let b15 = b14.skip(n15);
        let (g16, n16) = <RLE<String, u16> as NetworkAdapter>::dec(b15)->Ok_0;
        <RLE<String, u16> as NetworkAdapter>::lemma_enc_dec(b15, g16, n16);
        lemma_skip_skip(b, n1, n2);
        assert(b2 == b.skip(n1 + n2));
        lemma_skip_skip(b, n1 + n2, n3);
        assert(b3 == b.skip(n1 + n2 + n3));
        lemma_skip_skip(b, n1 + n2 + n3, n4);
        assert(b4 == b.skip(n1 + n2 + n3 + n4));
        lemma_skip_skip(b, n1 + n2 + n3 + n4, n5);
        assert(b5 == b.skip(n1 + n2 + n3 + n4 + n5));
        lemma_skip_skip(b, n1 + n2 + n3 + n4 + n5, n6);
        assert(b6 == b.skip(n1 + n2 + n3 + n4 + n5 + n6));
        lemma_skip_skip(b, n1 + n2 + n3 + n4 + n5 + n6, n7);
        assert(b7 == b.skip(n1 + n2 + n3 + n4 + n5 + n6 + n7));
        lemma_skip_skip(b, n1 + n2 + n3 + n4 + n5 + n6 + n7, n8);
        assert(b8 == b.skip(n1 + n2 + n3 + n4 + n5 + n6 + n7 + n8));
        lemma_skip_skip(b, n1 + n2 + n3 + n4 + n5 + n6 + n7 + n8, n9);
        assert(b9 == b.skip(n1 + n2 + n3 + n4 + n5 + n6 + n7 + n8 + n9));
        lemma_skip_skip(b, n1 + n2 + n3 + n4 + n5 + n6 + n7 + n8 + n9, n10);
        assert(b10 == b.skip(n1 + n2 + n3 + n4 + n5 + n6 + n7 + n8 + n9 + n10));
        lemma_skip_skip(b, n1 + n2 + n3 + n4 + n5 + n6 + n7 + n8 + n9 + n10, n11);
        assert(b11 == b.skip(n1 + n2 + n3 + n4 + n5 + n6 + n7 + n8 + n9 + n10 + n11));
        lemma_skip_skip(b, n1 + n2 + n3 + n4 + n5 + n6 + n7 + n8 + n9 + n10 + n11, n12);
        assert(b12 == b.skip(n1 + n2 + n3 + n4 + n5 + n6 + n7 + n8 + n9 + n10 + n11 + n12));
        lemma_skip_skip(b, n1 + n2 + n3 + n4 + n5 + n6 + n7 + n8 + n9 + n10 + n11 + n12, n13);
        assert(b13 == b.skip(n1 + n2 + n3 + n4 + n5 + n6 + n7 + n8 + n9 + n10 + n11 + n12 + n13));
        lemma_skip_skip(b, n1 + n2 + n3 + n4 + n5 + n6 + n7 + n8 + n9 + n10 + n11 + n12 + n13, n14);
        assert(b14 == b.skip(n1 + n2 + n3 + n4 + n5 + n6 + n7 + n8 + n9 + n10 + n11 + n12 + n13 + n14));
        lemma_skip_skip(b, n1 + n2 + n3 + n4 + n5 + n6 + n7 + n8 + n9 + n10 + n11 + n12 + n13 + n14, n15);
        assert(b15 == b.skip(n1 + n2 + n3 + n4 + n5 + n6 + n7 + n8 + n9 + n10 + n11 + n12 + n13 + n14 + n15));
        assert(n == n1 + n2 + n3 + n4 + n5 + n6 + n7 + n8 + n9 + n10 + n11 + n12 + n13 + n14 + n15 + n16);
        assert(m.build_version == g1);
        assert(m.game_id == g2);
        assert(m.guid == g3);
        assert(m.rand1 == g4);
        assert(m.password == g5);
        assert(m.rand2 == g6);
        assert(m.secret == g7);
        assert(m.key_time == g8);
        assert(m.key == g9);
        assert(m.map_json == g10);
        assert(m.entry_tag == g11);
        assert(m.game_net == g12);
        assert(m.game_net_user_id == g13);
        assert(m.play_platform == g14);
        assert(m.platform_token == g15);
        assert(m.user_token == g16);
        if Self::canon(b) {
            let s1 = n1;
            let s2 = s1 + n2;
            let s3 = s2 + n3;
            let s4 = s3 + n4;
            let s5 = s4 + n5;
            let s6 = s5 + n6;
            let s7 = s6 + n7;
            let s8 = s7 + n8;
            let s9 = s8 + n9;
            let s10 = s9 + n10;
            let s11 = s10 + n11;
            let s12 = s11 + n12;
            let s13 = s12 + n13;
            let s14 = s13 + n14;
            let s15 = s14 + n15;
            let s16 = s15 + n16;
            let q1 = <RLE<String, u16> as NetworkAdapter>::enc_model(m.build_version);
            assert(q1 == b.take(s1));
            lemma_take_concat(b, s1, n2);
            let q2 = q1 + <u32 as NetworkAdapter>::enc_model(m.game_id);
            assert(q2 == b.take(s2));
            lemma_take_concat(b, s2, n3);
            let q3 = q2 + <RLE<String, u16> as NetworkAdapter>::enc_model(m.guid);
            assert(q3 == b.take(s3));
            lemma_take_concat(b, s3, n4);
            let q4 = q3 + <u32 as NetworkAdapter>::enc_model(m.rand1);
            assert(q4 == b.take(s4));
            lemma_take_concat(b, s4, n5);
            let q5 = q4 + <RLE<String, u16> as NetworkAdapter>::enc_model(m.password);
            assert(q5 == b.take(s5));
            lemma_take_concat(b, s5, n6);
            let q6 = q5 + <u32 as NetworkAdapter>::enc_model(m.rand2);
            assert(q6 == b.take(s6));
            lemma_take_concat(b, s6, n7);
            let q7 = q6 + <RLE<String, u16> as NetworkAdapter>::enc_model(m.secret);
            assert(q7 == b.take(s7));
            lemma_take_concat(b, s7, n8);
            let q8 = q7 + <u32 as NetworkAdapter>::enc_model(m.key_time);
            assert(q8 == b.take(s8));
            lemma_take_concat(b, s8, n9);
            let q9 = q8 + <RLE<Vec<u8>, u16> as NetworkAdapter>::enc_model(m.key);
            assert(q9 == b.take(s9));
            lemma_take_concat(b, s9, n10);
            let q10 = q9 + <RLE<String, u32> as NetworkAdapter>::enc_model(m.map_json);
            assert(q10 == b.take(s10));
            lemma_take_concat(b, s10, n11);
            let q11 = q10 + <RLE<String, u16> as NetworkAdapter>::enc_model(m.entry_tag);
            assert(q11 == b.take(s11));
            lemma_take_concat(b, s11, n12);
            let q12 = q11 + <RLE<String, u16> as NetworkAdapter>::enc_model(m.game_net);
            assert(q12 == b.take(s12));
            lemma_take_concat(b, s12, n13);
            let q13 = q12 + <RLE<String, u16> as NetworkAdapter>::enc_model(m.game_net_user_id);
            assert(q13 == b.take(s13));
            lemma_take_concat(b, s13, n14);
            let q14 = q13 + <RLE<String, u16> as NetworkAdapter>::enc_model(m.play_platform);
            assert(q14 == b.take(s14));
            lemma_take_concat(b, s14, n15);
            let q15 = q14 + <RLE<String, u16> as NetworkAdapter>::enc_model(m.platform_token);
            assert(q15 == b.take(s15));
            lemma_take_concat(b, s15, n16);
            let q16 = q15 + <RLE<String, u16> as NetworkAdapter>::enc_model(m.user_token);
            assert(q16 == b.take(s16));
            assert(Self::enc_model(m) == q16);
            assert(Self::enc_model(m) == b.take(n));
        }
    }
}

#[verifier::ext_equal]
#[derive(Debug, PartialEq, Clone)]
pub struct InvDrop {
    pub slot: SlotObjectData,
}

impl NetworkAdapter for InvDrop {
    type Model = InvDrop;

    open spec fn model(self) -> InvDrop {
        self
    }

    open spec fn enc_model(m: InvDrop) -> Seq<u8> {
        <SlotObjectData as NetworkAdapter>::enc_model(m.slot)
    }

    open spec fn valid_model(m: InvDrop) -> bool {
        <SlotObjectData as NetworkAdapter>::valid_model(m.slot)
    }

    closed spec fn dec(b: Seq<u8>) -> Result<(InvDrop, int), Error> {
        match <SlotObjectData as NetworkAdapter>::dec(b) {
            Ok((g1, n1)) => {
                Ok((InvDrop { slot: g1 }, n1))
            },
            Err(e) => Err(e),
        }
    }

    closed spec fn canon(b: Seq<u8>) -> bool {
        match <SlotObjectData as NetworkAdapter>::dec(b) {
            Ok((g1, n1)) => <SlotObjectData as NetworkAdapter>::canon(b) && {
                true
            },
            Err(e) => true,
        }
    }

    fn get_be(r: &mut Reader) -> (res: Result<InvDrop, Error>) {
        let ghost b = old(r).remaining_bytes();
        let save = r.position();
        let x1 = match <SlotObjectData as NetworkAdapter>::get_be(r) {
            Ok(v) => v,
            Err(e) => {
                r.seek(save);
                return Err(e);
            },
        };
        proof {
            let (g1, n1) = <SlotObjectData as NetworkAdapter>::dec(b)->Ok_0;
        }
        Ok(InvDrop { slot: x1 })
    }

    fn put_be(self, out: &mut Vec<u8>) -> (res: Result<(), Error>) {
        let ghost m = self.model();
        let InvDrop { slot } = self;
        let ghost e1 = <SlotObjectData as NetworkAdapter>::enc_model(m.slot);
        let ghost p1 = e1;
        let mut tmp: Vec<u8> = Vec::new();
        let ghost o0 = tmp@;
        match slot.put_be(&mut tmp) {
            Ok(()) => {},
            Err(e) => {
                return Err(e);
            },
        };
        let ghost o1 = tmp@;
        proof {
            assert(slot == m.slot);
            assert(o1 == o0 + p1);
        }
        out.append(&mut tmp);
        proof {
            assert(Self::enc_model(m) == p1);
            assert(o0 + p1 =~= p1);
            assert(out@ == old(out)@ + Self::enc_model(m));
        }
        Ok(())
    }

    proof fn lemma_dec_enc(m: InvDrop, rest: Seq<u8>) {
        let e1 = <SlotObjectData as NetworkAdapter>::enc_model(m.slot);
        let p1 = e1;
        assert(Self::enc_model(m) == p1);
        let r1 = rest;
        let b = Self::enc_model(m) + rest;
        assert(b == e1 + r1);
        <SlotObjectData as NetworkAdapter>::lemma_dec_enc(m.slot, r1);
        assert(Self::enc_model(m).len() == e1.len());
        assert(InvDrop { slot: m.slot } =~= m);
    }

    proof fn lemma_enc_dec(b: Seq<u8>, m: InvDrop, n: int) {
        let (g1, n1) = <SlotObjectData as NetworkAdapter>::dec(b)->Ok_0;
        <SlotObjectData as NetworkAdapter>::lemma_enc_dec(b, g1, n1);
        assert(n == n1);
        assert(m.slot == g1);
        if Self::canon(b) {
            let s1 = n1;
            let q1 = <SlotObjectData as NetworkAdapter>::enc_model(m.slot);
            assert(q1 == b.take(s1));
            assert(Self::enc_model(m) == q1);
            assert(Self::enc_model(m) == b.take(n));
        }
    }
}

#[verifier::ext_equal]
#[derive(Debug, PartialEq, Clone)]
pub struct InvSwap {
    pub time: u32,
    pub pos: WorldPosData,
    pub slot1: SlotObjectData,
    pub slot2: SlotObjectData,
}

impl NetworkAdapter for InvSwap {
    type Model = InvSwap;

    open spec fn model(self) -> InvSwap {
        self
    }

    open spec fn enc_model(m: InvSwap) -> Seq<u8> {
        <u32 as NetworkAdapter>::enc_model(m.time) + <WorldPosData as NetworkAdapter>::enc_model(m.pos) + <SlotObjectData as NetworkAdapter>::enc_model(m.slot1) + <SlotObjectData as NetworkAdapter>::enc_model(m.slot2)
    }

    open spec fn valid_model(m: InvSwap) -> bool {
        <u32 as NetworkAdapter>::valid_model(m.time) && <WorldPosData as NetworkAdapter>::valid_model(m.pos) && <SlotObjectData as NetworkAdapter>::valid_model(m.slot1) && <SlotObjectData as NetworkAdapter>::valid_model(m.slot2)
    }

    closed spec fn dec(b: Seq<u8>) -> Result<(InvSwap, int), Error> {
        match <u32 as NetworkAdapter>::dec(b) {
            Ok((g1, n1)) => {
                let b1 = b.skip(n1);
                match <WorldPosData as NetworkAdapter>::dec(b1) {
                    Ok((g2, n2)) => {
                        let b2 = b1.skip(n2);
                        match <SlotObjectData as NetworkAdapter>::dec(b2) {
                            Ok((g3, n3)) => {
                                let b3 = b2.skip(n3);
                                match <SlotObjectData as NetworkAdapter>::dec(b3) {
                                    Ok((g4, n4)) => {
                                        Ok((InvSwap { time: g1, pos: g2, slot1: g3, slot2: g4 }, n1 + n2 + n3 + n4))
                                    },
                                    Err(e) => Err(e),
                                }
                            },
                            Err(e) => Err(e),
                        }
                    },
                    Err(e) => Err(e),
                }
            },
            Err(e) => Err(e),
        }
    }

    closed spec fn canon(b: Seq<u8>) -> bool {
        match <u32 as NetworkAdapter>::dec(b) {
            Ok((g1, n1)) => <u32 as NetworkAdapter>::canon(b) && {
                let b1 = b.skip(n1);
                match <WorldPosData as NetworkAdapter>::dec(b1) {
                    Ok((g2, n2)) => <WorldPosData as NetworkAdapter>::canon(b1) && {
                        let b2 = b1.skip(n2);
                        match <SlotObjectData as NetworkAdapter>::dec(b2) {
                            Ok((g3, n3)) => <SlotObjectData as NetworkAdapter>::canon(b2) && {
                                let b3 = b2.skip(n3);
                                match <SlotObjectData as NetworkAdapter>::dec(b3) {
                                    Ok((g4, n4)) => <SlotObjectData as NetworkAdapter>::canon(b3) && {
                                        true
                                    },
                                    Err(e) => true,
                                }
                            },
                            Err(e) => true,
                        }
                    },
                    Err(e) => true,
                }
            },
            Err(e) => true,
        }
    }

    fn get_be(r: &mut Reader) -> (res: Result<InvSwap, Error>) {
        let ghost b = old(r).remaining_bytes();
        let save = r.position();
        let x1 = match <u32 as NetworkAdapter>::get_be(r) {
            Ok(v) => v,
            Err(e) => {
                r.seek(save);
                return Err(e);
            },
        };
        let x2 = match <WorldPosData as NetworkAdapter>::get_be(r) {
            Ok(v) => v,
            Err(e) => {
                r.seek(save);
                return Err(e);
            },
        };
        let x3 = match <SlotObjectData as NetworkAdapter>::get_be(r) {
            Ok(v) => v,
            Err(e) => {
                r.seek(save);
                return Err(e);
            },
        };
        let x4 = match <SlotObjectData as NetworkAdapter>::get_be(r) {
            Ok(v) => v,
            Err(e) => {
                r.seek(save);
                return Err(e);
            },
        };
        proof {
            let (g1, n1) = <u32 as NetworkAdapter>::dec(b)->Ok_0;
            let b1 = b.skip(n1);
            let (g2, n2) = <WorldPosData as NetworkAdapter>::dec(b1)->Ok_0;
            let b2 = b1.skip(n2);
            let (g3, n3) = <SlotObjectData as NetworkAdapter>::dec(b2)->Ok_0;
            let b3 = b2.skip(n3);
            let (g4, n4) = <SlotObjectData as NetworkAdapter>::dec(b3)->Ok_0;
            lemma_skip_skip(b, n1, n2);
            assert(b2 == b.skip(n1 + n2));
            lemma_skip_skip(b, n1 + n2, n3);
            assert(b3 == b.skip(n1 + n2 + n3));
            lemma_skip_skip(b, n1 + n2 + n3, n4);
            assert(b3.skip(n4) == b.skip(n1 + n2 + n3 + n4));
        }
        Ok(InvSwap { time: x1, pos: x2, slot1: x3, slot2: x4 })
    }

    fn put_be(self, out: &mut Vec<u8>) -> (res: Result<(), Error>) {
        let ghost m = self.model();
        let InvSwap { time, pos, slot1, slot2 } = self;
        let ghost e1 = <u32 as NetworkAdapter>::enc_model(m.time);
        let ghost e2 = <WorldPosData as NetworkAdapter>::enc_model(m.pos);
        let ghost e3 = <SlotObjectData as NetworkAdapter>::enc_model(m.slot1);
        let ghost e4 = <SlotObjectData as NetworkAdapter>::enc_model(m.slot2);
        let ghost p1 = e1;
        let ghost p2 = p1 + e2;
        let ghost p3 = p2 + e3;
        let ghost p4 = p3 + e4;
        let mut tmp: Vec<u8> = Vec::new();
        let ghost o0 = tmp@;
        match time.put_be(&mut tmp) {
            Ok(()) => {},
            Err(e) => {
                return Err(e);
            },
        };
        let ghost o1 = tmp@;
        proof {
            assert(time == m.time);
            assert(o1 == o0 + p1);
        }
        match pos.put_be(&mut tmp) {
            Ok(()) => {},
            Err(e) => {
                return Err(e);
            },
        };
        let ghost o2 = tmp@;
        proof {
            assert(pos == m.pos);
            lemma_seq_assoc(o0, p1, e2);
            assert(o2 == o0 + p2);
        }
        match slot1.put_be(&mut tmp) {
            Ok(()) => {},
            Err(e) => {
                return Err(e);
            },
        };
        let ghost o3 = tmp@;
        proof {
            assert(slot1 == m.slot1);
            lemma_seq_assoc(o0, p2, e3);
            assert(o3 == o0 + p3);
        }
        match slot2.put_be(&mut tmp) {
            Ok(()) => {},
            Err(e) => {
                return Err(e);
            },
        };
        let ghost o4 = tmp@;
        proof {
            assert(slot2 == m.slot2);
            lemma_seq_assoc(o0, p3, e4);
            assert(o4 == o0 + p4);
        }
        out.append(&mut tmp);
        proof {
            assert(Self::enc_model(m) == p4);
            assert(o0 + p4 =~= p4);
            assert(out@ == old(out)@ + Self::enc_model(m));
        }
        Ok(())
    }

    proof fn lemma_dec_enc(m: InvSwap, rest: Seq<u8>) {
        let e1 = <u32 as NetworkAdapter>::enc_model(m.time);
        let e2 = <WorldPosData as NetworkAdapter>::enc_model(m.pos);
        let e3 = <SlotObjectData as NetworkAdapter>::enc_model(m.slot1);
        let e4 = <SlotObjectData as NetworkAdapter>::enc_model(m.slot2);
        let p1 = e1;
        let p2 = p1 + e2;
        let p3 = p2 + e3;
        let p4 = p3 + e4;
        assert(Self::enc_model(m) == p4);
        let r4 = rest;
        let r3 = e4 + r4;
        let r2 = e3 + r3;
        let r1 = e2 + r2;
        let b = Self::enc_model(m) + rest;
        lemma_seq_assoc(p3, e4, r4);
        assert(p4 + r4 == p3 + r3);
        lemma_seq_assoc(p2, e3, r3);
        assert(p3 + r3 == p2 + r2);
        lemma_seq_assoc(p1, e2, r2);
        assert(p2 + r2 == p1 + r1);
        assert(b == e1 + r1);
        <u32 as NetworkAdapter>::lemma_dec_enc(m.time, r1);
        <WorldPosData as NetworkAdapter>::lemma_dec_enc(m.pos, r2);
        <SlotObjectData as NetworkAdapter>::lemma_dec_enc(m.slot1, r3);
        <SlotObjectData as NetworkAdapter>::lemma_dec_enc(m.slot2, r4);
        let c1 = b.skip(e1.len() as int);
        lemma_skip_concat(e1, r1);
        assert(c1 == r1);
        let c2 = c1.skip(e2.len() as int);
        lemma_skip_concat(e2, r2);
        assert(c2 == r2);
        let c3 = c2.skip(e3.len() as int);
        lemma_skip_concat(e3, r3);
        assert(c3 == r3);
        assert(Self::enc_model(m).len() == e1.len() + e2.len() + e3.len() + e4.len());
        assert(InvSwap { time: m.time, pos: m.pos, slot1: m.slot1, slot2: m.slot2 } =~= m);
    }

    proof fn lemma_enc_dec(b: Seq<u8>, m: InvSwap, n: int) {
        let (g1, n1) = <u32 as NetworkAdapter>::dec(b)->Ok_0;
        <u32 as NetworkAdapter>::lemma_enc_dec(b, g1, n1);
        let b1 = b.skip(n1);
        let (g2, n2) = <WorldPosData as NetworkAdapter>::dec(b1)->Ok_0;
        <WorldPosData as NetworkAdapter>::lemma_enc_dec(b1, g2, n2);
        let b2 = b1.skip(n2);
        let (g3, n3) = <SlotObjectData as NetworkAdapter>::dec(b2)->Ok_0;
        <SlotObjectData as NetworkAdapter>::lemma_enc_dec(b2, g3, n3);
        let b3 = b2.skip(n3);
        let (g4, n4) = <SlotObjectData as NetworkAdapter>::dec(b3)->Ok_0;
        <SlotObjectData as NetworkAdapter>::lemma_enc_dec(b3, g4, n4);
        lemma_skip_skip(b, n1, n2);
        assert(b2 == b.skip(n1 + n2));
        lemma_skip_skip(b, n1 + n2, n3);
        assert(b3 == b.skip(n1 + n2 + n3));
        assert(n == n1 + n2 + n3 + n4);
        assert(m.time == g1);
        assert(m.pos == g2);
        assert(m.slot1 == g3);
        assert(m.slot2 == g4);
        if Self::canon(b) {
            let s1 = n1;
            let s2 = s1 + n2;
            let s3 = s2 + n3;
            let s4 = s3 + n4;
            let q1 = <u32 as NetworkAdapter>::enc_model(m.time);
            assert(q1 == b.take(s1));
            lemma_take_concat(b, s1, n2);
            let q2 = q1 + <WorldPosData as NetworkAdapter>::enc_model(m.pos);
            assert(q2 == b.take(s2));
            lemma_take_concat(b, s2, n3);
            let q3 = q2 + <SlotObjectData as NetworkAdapter>::enc_model(m.slot1);
            assert(q3 == b.take(s3));
            lemma_take_concat(b, s3, n4);
            let q4 = q3 + <SlotObjectData as NetworkAdapter>::enc_model(m.slot2);
            assert(q4 == b.take(s4));
            assert(Self::enc_model(m) == q4);
            assert(Self::enc_model(m) == b.take(n));
        }
    }
}

#[verifier::ext_equal]
#[derive(Debug, PartialEq, Clone)]
pub struct JoinGuild {
    pub guild_name: RLE<String, u16>,
}

/// The mathematical model of a decoded `JoinGuild`.
#[verifier::ext_equal]
pub struct JoinGuildModel {
    pub guild_name: Seq<char>,
}

impl NetworkAdapter for JoinGuild {
    type Model = JoinGuildModel;

    open spec fn model(self) -> JoinGuildModel {
        JoinGuildModel {
            guild_name: self.guild_name.model(),
        }
    }

    open spec fn enc_model(m: JoinGuildModel) -> Seq<u8> {
        <RLE<String, u16> as NetworkAdapter>::enc_model(m.guild_name)
    }

    open spec fn valid_model(m: JoinGuildModel) -> bool {
        <RLE<String, u16> as NetworkAdapter>::valid_model(m.guild_name)
    }

    closed spec fn dec(b: Seq<u8>) -> Result<(JoinGuildModel, int), Error> {
        match <RLE<String, u16> as NetworkAdapter>::dec(b) {
            Ok((g1, n1)) => {
                Ok((JoinGuildModel { guild_name: g1 }, n1))
            },
            Err(e) => Err(e),
        }
    }

    closed spec fn canon(b: Seq<u8>) -> bool {
        match <RLE<String, u16> as NetworkAdapter>::dec(b) {
            Ok((g1, n1)) => <RLE<String, u16> as NetworkAdapter>::canon(b) && {
                true
            },
            Err(e) => true,
        }
    }

    fn get_be(r: &mut Reader) -> (res: Result<JoinGuild, Error>) {
        let ghost b = old(r).remaining_bytes();
        let save = r.position();
        let x1 = match <RLE<String, u16> as NetworkAdapter>::get_be(r) {
            Ok(v) => v,
            Err(e) => {
                r.seek(save);
                return Err(e);
            },
        };
        proof {
            let (g1, n1) = <RLE<String, u16> as NetworkAdapter>::dec(b)->Ok_0;
        }
        Ok(JoinGuild { guild_name: x1 })
    }

    fn put_be(self, out: &mut Vec<u8>) -> (res: Result<(), Error>) {
        let ghost m = self.model();
        let JoinGuild { guild_name } = self;
        let ghost e1 = <RLE<String, u16> as NetworkAdapter>::enc_model(m.guild_name);
        let ghost p1 = e1;
        let mut tmp: Vec<u8> = Vec::new();
        let ghost o0 = tmp@;
        match guild_name.put_be(&mut tmp) {
            Ok(()) => {},
            Err(e) => {
                return Err(e);
            },
        };
        let ghost o1 = tmp@;
        proof {
            assert(guild_name.model() == m.guild_name);
            assert(o1 == o0 + p1);
        }
        out.append(&mut tmp);
        proof {
            assert(Self::enc_model(m) == p1);
            assert(o0 + p1 =~= p1);
            assert(out@ == old(out)@ + Self::enc_model(m));
        }
        Ok(())
    }

    proof fn lemma_dec_enc(m: JoinGuildModel, rest: Seq<u8>) {
        let e1 = <RLE<String, u16> as NetworkAdapter>::enc_model(m.guild_name);
        let p1 = e1;
        assert(Self::enc_model(m) == p1);
        let r1 = rest;
        let b = Self::enc_model(m) + rest;
        assert(b == e1 + r1);
        <RLE<String, u16> as NetworkAdapter>::lemma_dec_enc(m.guild_name, r1);
        assert(Self::enc_model(m).len() == e1.len());
        assert(JoinGuildModel { guild_name: m.guild_name } =~= m);
    }

    proof fn lemma_enc_dec(b: Seq<u8>, m: JoinGuildModel, n: int) {
        let (g1, n1) = <RLE<String, u16> as NetworkAdapter>::dec(b)->Ok_0;
        <RLE<String, u16> as NetworkAdapter>::lemma_enc_dec(b, g1, n1);
        assert(n == n1);
        assert(m.guild_name == g1);
        if Self::canon(b) {
            let s1 = n1;
            let q1 = <RLE<String, u16> as NetworkAdapter>::enc_model(m.guild_name);
            assert(q1 == b.take(s1));
            assert(Self::enc_model(m) == q1);
            assert(Self::enc_model(m) == b.take(n));
        }
    }
}

#[verifier::ext_equal]
#[derive(Debug, PartialEq, Clone)]
pub struct KeyInfoRequest {
    pub item_type: u32,
}

impl NetworkAdapter for KeyInfoRequest {
    type Model = KeyInfoRequest;

    open spec fn model(self) -> KeyInfoRequest {
        self
    }

    open spec fn enc_model(m: KeyInfoRequest) -> Seq<u8> {
        <u32 as NetworkAdapter>::enc_model(m.item_type)
    }

    open spec fn valid_model(m: KeyInfoRequest) -> bool {
        <u32 as NetworkAdapter>::valid_model(m.item_type)
    }

    closed spec fn dec(b: Seq<u8>) -> Result<(KeyInfoRequest, int), Error> {
        match <u32 as NetworkAdapter>::dec(b) {
            Ok((g1, n1)) => {
                Ok((KeyInfoRequest { item_type: g1 }, n1))
            },
            Err(e) => Err(e),
        }
    }

    closed spec fn canon(b: Seq<u8>) -> bool {
        match <u32 as NetworkAdapter>::dec(b) {
            Ok((g1, n1)) => <u32 as NetworkAdapter>::canon(b) && {
                true
            },
            Err(e) => true,
        }
    }

    fn get_be(r: &mut Reader) -> (res: Result<KeyInfoRequest, Error>) {
        let ghost b = old(r).remaining_bytes();
        let save = r.position();
        let x1 = match <u32 as NetworkAdapter>::get_be(r) {
            Ok(v) => v,
            Err(e) => {
                r.seek(save);
                return Err(e);
            },
        };
        proof {
            let (g1, n1) = <u32 as NetworkAdapter>::dec(b)->Ok_0;
        }
        Ok(KeyInfoRequest { item_type: x1 })
    }

    fn put_be(self, out: &mut Vec<u8>) -> (res: Result<(), Error>) {
        let ghost m = self.model();
        let KeyInfoRequest { item_type } = self;
        let ghost e1 = <u32 as NetworkAdapter>::enc_model(m.item_type);
        let ghost p1 = e1;
        let mut tmp: Vec<u8> = Vec::new();
        let ghost o0 = tmp@;
        match item_type.put_be(&mut tmp) {
            Ok(()) => {},
            Err(e) => {
                return Err(e);
            },
        };
        let ghost o1 = tmp@;
        proof {
            assert(item_type == m.item_type);
            assert(o1 == o0 + p1);
        }
        out.append(&mut tmp);
        proof {
            assert(Self::enc_model(m) == p1);
            assert(o0 + p1 =~= p1);
            assert(out@ == old(out)@ + Self::enc_model(m));
        }
        Ok(())
    }

    proof fn lemma_dec_enc(m: KeyInfoRequest, rest: Seq<u8>) {
        let e1 = <u32 as NetworkAdapter>::enc_model(m.item_type);
        let p1 = e1;
        assert(Self::enc_model(m) == p1);
        let r1 = rest;
        let b = Self::enc_model(m) + rest;
        assert(b == e1 + r1);
        <u32 as NetworkAdapter>::lemma_dec_enc(m.item_type, r1);
        assert(Self::enc_model(m).len() == e1.len());
        assert(KeyInfoRequest { item_type: m.item_type } =~= m);
    }

    proof fn lemma_enc_dec(b: Seq<u8>, m: KeyInfoRequest, n: int) {
        let (g1, n1) = <u32 as NetworkAdapter>::dec(b)->Ok_0;
        <u32 as NetworkAdapter>::lemma_enc_dec(b, g1, n1);
        assert(n == n1);
        assert(m.item_type == g1);
        if Self::canon(b) {
            let s1 = n1;
            let q1 = <u32 as NetworkAdapter>::enc_model(m.item_type);
            assert(q1 == b.take(s1));
            assert(Self::enc_model(m) == q1);
            assert(Self::enc_model(m) == b.take(n));
        }
    }
}

#[verifier::ext_equal]
#[derive(Debug, PartialEq, Clone)]
pub struct Load {
    pub char_id: u32,
    pub from_arena: bool,
}

impl NetworkAdapter for Load {
    type Model = Load;

    open spec fn model(self) -> Load {
        self
    }

    open spec fn enc_model(m: Load) -> Seq<u8> {
        <u32 as NetworkAdapter>::enc_model(m.char_id) + <bool as NetworkAdapter>::enc_model(m.from_arena)
    }

    open spec fn valid_model(m: Load) -> bool {
        <u32 as NetworkAdapter>::valid_model(m.char_id) && <bool as NetworkAdapter>::valid_model(m.from_arena)
    }

    closed spec fn dec(b: Seq<u8>) -> Result<(Load, int), Error> {
        match <u32 as NetworkAdapter>::dec(b) {
            Ok((g1, n1)) => {
                let b1 = b.skip(n1);
                match <bool as NetworkAdapter>::dec(b1) {
                    Ok((g2, n2)) => {
                        Ok((Load { char_id: g1, from_arena: g2 }, n1 + n2))
                    },
                    Err(e) => Err(e),
                }
            },
            Err(e) => Err(e),
        }
    }

    closed spec fn canon(b: Seq<u8>) -> bool {
        match <u32 as NetworkAdapter>::dec(b) {
            Ok((g1, n1)) => <u32 as NetworkAdapter>::canon(b) && {
                let b1 = b.skip(n1);
                match <bool as NetworkAdapter>::dec(b1) {
                    Ok((g2, n2)) => <bool as NetworkAdapter>::canon(b1) && {
                        true
                    },
                    Err(e) => true,
                }
            },
            Err(e) => true,
        }
    }

    fn get_be(r: &mut Reader) -> (res: Result<Load, Error>) {
        let ghost b = old(r).remaining_bytes();
        let save = r.position();
        let x1 = match <u32 as NetworkAdapter>::get_be(r) {
            Ok(v) => v,
            Err(e) => {
                r.seek(save);
                return Err(e);
            },
        };
        let x2 = match <bool as NetworkAdapter>::get_be(r) {
            Ok(v) => v,
            Err(e) => {
                r.seek(save);
                return Err(e);
            },
        };
        proof {
            let (g1, n1) = <u32 as NetworkAdapter>::dec(b)->Ok_0;
            let b1 = b.skip(n1);
            let (g2, n2) = <bool as NetworkAdapter>::dec(b1)->Ok_0;
            lemma_skip_skip(b, n1, n2);
            assert(b1.skip(n2) == b.skip(n1 + n2));
        }
        Ok(Load { char_id: x1, from_arena: x2 })
    }

    fn put_be(self, out: &mut Vec<u8>) -> (res: Result<(), Error>) {
        let ghost m = self.model();
        let Load { char_id, from_arena } = self;
        let ghost e1 = <u32 as NetworkAdapter>::enc_model(m.char_id);
        let ghost e2 = <bool as NetworkAdapter>::enc_model(m.from_arena);
        let ghost p1 = e1;
        let ghost p2 = p1 + e2;
        let mut tmp: Vec<u8> = Vec::new();
        let ghost o0 = tmp@;
        match char_id.put_be(&mut tmp) {
            Ok(()) => {},
            Err(e) => {
                return Err(e);
            },
        };
        let ghost o1 = tmp@;
        proof {
            assert(char_id == m.char_id);
            assert(o1 == o0 + p1);
        }
        match from_arena.put_be(&mut tmp) {
            Ok(()) => {},
            Err(e) => {
                return Err(e);
            },
        };
        let ghost o2 = tmp@;
        proof {
            assert(from_arena == m.from_arena);
            lemma_seq_assoc(o0, p1, e2);
            assert(o2 == o0 + p2);
        }
        out.append(&mut tmp);
        proof {
            assert(Self::enc_model(m) == p2);
            assert(o0 + p2 =~= p2);
            assert(out@ == old(out)@ + Self::enc_model(m));
        }
        Ok(())
    }

    proof fn lemma_dec_enc(m: Load, rest: Seq<u8>) {
        let e1 = <u32 as NetworkAdapter>::enc_model(m.char_id);
        let e2 = <bool as NetworkAdapter>::enc_model(m.from_arena);
        let p1 = e1;
        let p2 = p1 + e2;
        assert(Self::enc_model(m) == p2);
        let r2 = rest;
        let r1 = e2 + r2;
        let b = Self::enc_model(m) + rest;
        lemma_seq_assoc(p1, e2, r2);
        assert(p2 + r2 == p1 + r1);
        assert(b == e1 + r1);
        <u32 as NetworkAdapter>::lemma_dec_enc(m.char_id, r1);
        <bool as NetworkAdapter>::lemma_dec_enc(m.from_arena, r2);
        let c1 = b.skip(e1.len() as int);
        lemma_skip_concat(e1, r1);
        assert(c1 == r1);
        assert(Self::enc_model(m).len() == e1.len() + e2.len());
        assert(Load { char_id: m.char_id, from_arena: m.from_arena } =~= m);
    }

    proof fn lemma_enc_dec(b: Seq<u8>, m: Load, n: int) {
        let (g1, n1) = <u32 as NetworkAdapter>::dec(b)->Ok_0;
        <u32 as NetworkAdapter>::lemma_enc_dec(b, g1, n1);
        let b1 = b.skip(n1);
        let (g2, n2) = <bool as NetworkAdapter>::dec(b1)->Ok_0;
        <bool as NetworkAdapter>::lemma_enc_dec(b1, g2, n2);
        assert(n == n1 + n2);
        assert(m.char_id == g1);
        assert(m.from_arena == g2);
        if Self::canon(b) {
            let s1 = n1;
            let s2 = s1 + n2;
            let q1 = <u32 as NetworkAdapter>::enc_model(m.char_id);
            assert(q1 == b.take(s1));
            lemma_take_concat(b, s1, n2);
            let q2 = q1 + <bool as NetworkAdapter>::enc_model(m.from_arena);
            assert(q2 == b.take(s2));
            assert(Self::enc_model(m) == q2);
            assert(Self::enc_model(m) == b.take(n));
        }
    }
}

#[verifier::ext_equal]
#[derive(Debug, PartialEq, Clone)]
pub struct Move {
    pub tick_id: u32,
    pub time: u32,
    pub new_pos: WorldPosData,
    pub records: RLE<Vec<MoveRecord>, u16>,
}

/// The mathematical model of a decoded `Move`.
#[verifier::ext_equal]
pub struct MoveModel {
    pub tick_id: u32,
    pub time: u32,
    pub new_pos: WorldPosData,
    pub records: Seq<MoveRecord>,
}

impl NetworkAdapter for Move {
    type Model = MoveModel;

    open spec fn model(self) -> MoveModel {
        MoveModel {
            tick_id: self.tick_id.model(),
            time: self.time.model(),
            new_pos: self.new_pos.model(),
            records: self.records.model(),
        }
    }

    open spec fn enc_model(m: MoveModel) -> Seq<u8> {
        <u32 as NetworkAdapter>::enc_model(m.tick_id) + <u32 as NetworkAdapter>::enc_model(m.time) + <WorldPosData as NetworkAdapter>::enc_model(m.new_pos) + <RLE<Vec<MoveRecord>, u16> as NetworkAdapter>::enc_model(m.records)
    }

    open spec fn valid_model(m: MoveModel) -> bool {
        <u32 as NetworkAdapter>::valid_model(m.tick_id) && <u32 as NetworkAdapter>::valid_model(m.time) && <WorldPosData as NetworkAdapter>::valid_model(m.new_pos) && <RLE<Vec<MoveRecord>, u16> as NetworkAdapter>::valid_model(m.records)
    }

    closed spec fn dec(b: Seq<u8>) -> Result<(MoveModel, int), Error> {
        match <u32 as NetworkAdapter>::dec(b) {
            Ok((g1, n1)) => {
                let b1 = b.skip(n1);
                match <u32 as NetworkAdapter>::dec(b1) {
                    Ok((g2, n2)) => {
                        let b2 = b1.skip(n2);
                        match <WorldPosData as NetworkAdapter>::dec(b2) {
                            Ok((g3, n3)) => {
                                let b3 = b2.skip(n3);
                                match <RLE<Vec<MoveRecord>, u16> as NetworkAdapter>::dec(b3) {
                                    Ok((g4, n4)) => {
                                        Ok((MoveModel { tick_id: g1, time: g2, new_pos: g3, records: g4 }, n1 + n2 + n3 + n4))
                                    },
                                    Err(e) => Err(e),
                                }
                            },
                            Err(e) => Err(e),
                        }
                    },
                    Err(e) => Err(e),
                }
            },
            Err(e) => Err(e),
        }
    }

    closed spec fn canon(b: Seq<u8>) -> bool {
        match <u32 as NetworkAdapter>::dec(b) {
            Ok((g1, n1)) => <u32 as NetworkAdapter>::canon(b) && {
                let b1 = b.skip(n1);
                match <u32 as NetworkAdapter>::dec(b1) {
                    Ok((g2, n2)) => <u32 as NetworkAdapter>::canon(b1) && {
                        let b2 = b1.skip(n2);
                        match <WorldPosData as NetworkAdapter>::dec(b2) {
                            Ok((g3, n3)) => <WorldPosData as NetworkAdapter>::canon(b2) && {
                                let b3 = b2.skip(n3);
                                match <RLE<Vec<MoveRecord>, u16> as NetworkAdapter>::dec(b3) {
                                    Ok((g4, n4)) => <RLE<Vec<MoveRecord>, u16> as NetworkAdapter>::canon(b3) && {
                                        true
                                    },
                                    Err(e) => true,
                                }
                            },
                            Err(e) => true,
                        }
                    },
                    Err(e) => true,
                }
            },
            Err(e) => true,
        }
    }

    fn get_be(r: &mut Reader) -> (res: Result<Move, Error>) {
        let ghost b = old(r).remaining_bytes();
        let save = r.position();
        let x1 = match <u32 as NetworkAdapter>::get_be(r) {
            Ok(v) => v,
            Err(e) => {
                r.seek(save);
                return Err(e);
            },
        };
        let x2 = match <u32 as NetworkAdapter>::get_be(r) {
            Ok(v) => v,
            Err(e) => {
                r.seek(save);
                return Err(e);
            },
        };
        let x3 = match <WorldPosData as NetworkAdapter>::get_be(r) {
            Ok(v) => v,
            Err(e) => {
                r.seek(save);
                return Err(e);
            },
        };
        let x4 = match <RLE<Vec<MoveRecord>, u16> as NetworkAdapter>::get_be(r) {
            Ok(v) => v,
            Err(e) => {
                r.seek(save);
                return Err(e);
            },
        };
        proof {
            let (g1, n1) = <u32 as NetworkAdapter>::dec(b)->Ok_0;
            let b1 = b.skip(n1);
            let (g2, n2) = <u32 as NetworkAdapter>::dec(b1)->Ok_0;
            let b2 = b1.skip(n2);
            let (g3, n3) = <WorldPosData as NetworkAdapter>::dec(b2)->Ok_0;
            let b3 = b2.skip(n3);
            let (g4, n4) = <RLE<Vec<MoveRecord>, u16> as NetworkAdapter>::dec(b3)->Ok_0;
            lemma_skip_skip(b, n1, n2);
            assert(b2 == b.skip(n1 + n2));
            lemma_skip_skip(b, n1 + n2, n3);
            assert(b3 == b.skip(n1 + n2 + n3));
            lemma_skip_skip(b, n1 + n2 + n3, n4);
            assert(b3.skip(n4) == b.skip(n1 + n2 + n3 + n4));
        }
        Ok(Move { tick_id: x1, time: x2, new_pos: x3, records: x4 })
    }

    fn put_be(self, out: &mut Vec<u8>) -> (res: Result<(), Error>) {
        let ghost m = self.model();
        let Move { tick_id, time, new_pos, records } = self;
        let ghost e1 = <u32 as NetworkAdapter>::enc_model(m.tick_id);
        let ghost e2 = <u32 as NetworkAdapter>::enc_model(m.time);
        let ghost e3 = <WorldPosData as NetworkAdapter>::enc_model(m.new_pos);
        let ghost e4 = <RLE<Vec<MoveRecord>, u16> as NetworkAdapter>::enc_model(m.records);
        let ghost p1 = e1;
        let ghost p2 = p1 + e2;
        let ghost p3 = p2 + e3;
        let ghost p4 = p3 + e4;
        let mut tmp: Vec<u8> = Vec::new();
        let ghost o0 = tmp@;
        match tick_id.put_be(&mut tmp) {
            Ok(()) => {},
            Err(e) => {
                return Err(e);
            },
        };
        let ghost o1 = tmp@;
        proof {
            assert(tick_id.model() == m.tick_id);
            assert(o1 == o0 + p1);
        }
        match time.put_be(&mut tmp) {
            Ok(()) => {},
            Err(e) => {
                return Err(e);
            },
        };
        let ghost o2 = tmp@;
        proof {
            assert(time.model() == m.time);
            lemma_seq_assoc(o0, p1, e2);
            assert(o2 == o0 + p2);
        }
        match new_pos.put_be(&mut tmp) {
            Ok(()) => {},
            Err(e) => {
                return Err(e);
            },
        };
        let ghost o3 = tmp@;
        proof {
            assert(new_pos.model() == m.new_pos);
            lemma_seq_assoc(o0, p2, e3);
            assert(o3 == o0 + p3);
        }
        match records.put_be(&mut tmp) {
            Ok(()) => {},
            Err(e) => {
                return Err(e);
            },
        };
        let ghost o4 = tmp@;
        proof {
            assert(records.model() == m.records);
            lemma_seq_assoc(o0, p3, e4);
            assert(o4 == o0 + p4);
        }
        out.append(&mut tmp);
        proof {
            assert(Self::enc_model(m) == p4);
            assert(o0 + p4 =~= p4);
            assert(out@ == old(out)@ + Self::enc_model(m));
        }
        Ok(())
    }

    proof fn lemma_dec_enc(m: MoveModel, rest: Seq<u8>) {
        let e1 = <u32 as NetworkAdapter>::enc_model(m.tick_id);
        let e2 = <u32 as NetworkAdapter>::enc_model(m.time);
        let e3 = <WorldPosData as NetworkAdapter>::enc_model(m.new_pos);
        let e4 = <RLE<Vec<MoveRecord>, u16> as NetworkAdapter>::enc_model(m.records);
        let p1 = e1;
        let p2 = p1 + e2;
        let p3 = p2 + e3;
        let p4 = p3 + e4;
        assert(Self::enc_model(m) == p4);
        let r4 = rest;
        let r3 = e4 + r4;
        let r2 = e3 + r3;
        let r1 = e2 + r2;
        let b = Self::enc_model(m) + rest;
        lemma_seq_assoc(p3, e4, r4);
        assert(p4 + r4 == p3 + r3);
        lemma_seq_assoc(p2, e3, r3);
        assert(p3 + r3 == p2 + r2);
        lemma_seq_assoc(p1, e2, r2);
        assert(p2 + r2 == p1 + r1);
        assert(b == e1 + r1);
        <u32 as NetworkAdapter>::lemma_dec_enc(m.tick_id, r1);
        <u32 as NetworkAdapter>::lemma_dec_enc(m.time, r2);
        <WorldPosData as NetworkAdapter>::lemma_dec_enc(m.new_pos, r3);
        <RLE<Vec<MoveRecord>, u16> as NetworkAdapter>::lemma_dec_enc(m.records, r4);
        let c1 = b.skip(e1.len() as int);
        lemma_skip_concat(e1, r1);
        assert(c1 == r1);
        let c2 = c1.skip(e2.len() as int);
        lemma_skip_concat(e2, r2);
        assert(c2 == r2);
        let c3 = c2.skip(e3.len() as int);
        lemma_skip_concat(e3, r3);
        assert(c3 == r3);
        assert(Self::enc_model(m).len() == e1.len() + e2.len() + e3.len() + e4.len());
        assert(MoveModel { tick_id: m.tick_id, time: m.time, new_pos: m.new_pos, records: m.records } =~= m);
    }

    proof fn lemma_enc_dec(b: Seq<u8>, m: MoveModel, n: int) {
        let (g1, n1) = <u32 as NetworkAdapter>::dec(b)->Ok_0;
        <u32 as NetworkAdapter>::lemma_enc_dec(b, g1, n1);
        let b1 = b.skip(n1);
        let (g2, n2) = <u32 as NetworkAdapter>::dec(b1)->Ok_0;
        <u32 as NetworkAdapter>::lemma_enc_dec(b1, g2, n2);
        let b2 = b1.skip(n2);
        let (g3, n3) = <WorldPosData as NetworkAdapter>::dec(b2)->Ok_0;
        <WorldPosData as NetworkAdapter>::lemma_enc_dec(b2, g3, n3);
        let b3 = b2.skip(n3);
        let (g4, n4) = <RLE<Vec<MoveRecord>, u16> as NetworkAdapter>::dec(b3)->Ok_0;
        <RLE<Vec<MoveRecord>, u16> as NetworkAdapter>::lemma_enc_dec(b3, g4, n4);
        lemma_skip_skip(b, n1, n2);
        assert(b2 == b.skip(n1 + n2));
        lemma_skip_skip(b, n1 + n2, n3);
        assert(b3 == b.skip(n1 + n2 + n3));
        assert(n == n1 + n2 + n3 + n4);
        assert(m.tick_id == g1);
        assert(m.time == g2);
        assert(m.new_pos == g3);
        assert(m.records == g4);
        if Self::canon(b) {
            let s1 = n1;
            let s2 = s1 + n2;
            let s3 = s2 + n3;
            let s4 = s3 + n4;
            let q1 = <u32 as NetworkAdapter>::enc_model(m.tick_id);
            assert(q1 == b.take(s1));
            lemma_take_concat(b, s1, n2);
            let q2 = q1 + <u32 as NetworkAdapter>::enc_model(m.time);
            assert(q2 == b.take(s2));
            lemma_take_concat(b, s2, n3);
            let q3 = q2 + <WorldPosData as NetworkAdapter>::enc_model(m.new_pos);
            assert(q3 == b.take(s3));
            lemma_take_concat(b, s3, n4);
            let q4 = q3 + <RLE<Vec<MoveRecord>, u16> as NetworkAdapter>::enc_model(m.records);
            assert(q4 == b.take(s4));
            assert(Self::enc_model(m) == q4);
            assert(Self::enc_model(m) == b.take(n));
        }
    }
}

#[verifier::ext_equal]
#[derive(Debug, PartialEq, Clone)]
pub struct OtherHit {
    pub time: u32,
    pub bullet_id: u8,
    pub object_id: u32,
    pub target_id: u32,
}

impl NetworkAdapter for OtherHit {
    type Model = OtherHit;

    open spec fn model(self) -> OtherHit {
        self
    }

    open spec fn enc_model(m: OtherHit) -> Seq<u8> {
        <u32 as NetworkAdapter>::enc_model(m.time) + <u8 as NetworkAdapter>::enc_model(m.bullet_id) + <u32 as NetworkAdapter>::enc_model(m.object_id) + <u32 as NetworkAdapter>::enc_model(m.target_id)
    }

    open spec fn valid_model(m: OtherHit) -> bool {
        <u32 as NetworkAdapter>::valid_model(m.time) && <u8 as NetworkAdapter>::valid_model(m.bullet_id) && <u32 as NetworkAdapter>::valid_model(m.object_id) && <u32 as NetworkAdapter>::valid_model(m.target_id)
    }

    closed spec fn dec(b: Seq<u8>) -> Result<(OtherHit, int), Error> {
        match <u32 as NetworkAdapter>::dec(b) {
            Ok((g1, n1)) => {
                let b1 = b.skip(n1);
                match <u8 as NetworkAdapter>::dec(b1) {
                    Ok((g2, n2)) => {
                        let b2 = b1.skip(n2);
                        match <u32 as NetworkAdapter>::dec(b2) {
                            Ok((g3, n3)) => {
                                let b3 = b2.skip(n3);
                                match <u32 as NetworkAdapter>::dec(b3) {
                                    Ok((g4, n4)) => {
                                        Ok((OtherHit { time: g1, bullet_id: g2, object_id: g3, target_id: g4 }, n1 + n2 + n3 + n4))
                                    },
                                    Err(e) => Err(e),
                                }
                            },
                            Err(e) => Err(e),
                        }
                    },
                    Err(e) => Err(e),
                }
            },
            Err(e) => Err(e),
        }
    }

    closed spec fn canon(b: Seq<u8>) -> bool {
        match <u32 as NetworkAdapter>::dec(b) {
            Ok((g1, n1)) => <u32 as NetworkAdapter>::canon(b) && {
                let b1 = b.skip(n1);
                match <u8 as NetworkAdapter>::dec(b1) {
                    Ok((g2, n2)) => <u8 as NetworkAdapter>::canon(b1) && {
                        let b2 = b1.skip(n2);
                        match <u32 as NetworkAdapter>::dec(b2) {
                            Ok((g3, n3)) => <u32 as NetworkAdapter>::canon(b2) && {
                                let b3 = b2.skip(n3);
                                match <u32 as NetworkAdapter>::dec(b3) {
                                    Ok((g4, n4)) => <u32 as NetworkAdapter>::canon(b3) && {
                                        true
                                    },
                                    Err(e) => true,
                                }
                            },
                            Err(e) => true,
                        }
                    },
                    Err(e) => true,
                }
            },
            Err(e) => true,
        }
    }

    fn get_be(r: &mut Reader) -> (res: Result<OtherHit, Error>) {
        let ghost b = old(r).remaining_bytes();
        let save = r.position();
        let x1 = match <u32 as NetworkAdapter>::get_be(r) {
            Ok(v) => v,
            Err(e) => {
                r.seek(save);
                return Err(e);
            },
        };
        let x2 = match <u8 as NetworkAdapter>::get_be(r) {
            Ok(v) => v,
            Err(e) => {
                r.seek(save);
                return Err(e);
            },
        };
        let x3 = match <u32 as NetworkAdapter>::get_be(r) {
            Ok(v) => v,
            Err(e) => {
                r.seek(save);
                return Err(e);
            },
        };
        let x4 = match <u32 as NetworkAdapter>::get_be(r) {
            Ok(v) => v,
            Err(e) => {
                r.seek(save);
                return Err(e);
            },
        };
        proof {
            let (g1, n1) = <u32 as NetworkAdapter>::dec(b)->Ok_0;
            let b1 = b.skip(n1);
            let (g2, n2) = <u8 as NetworkAdapter>::dec(b1)->Ok_0;
            let b2 = b1.skip(n2);
            let (g3, n3) = <u32 as NetworkAdapter>::dec(b2)->Ok_0;
            let b3 = b2.skip(n3);
            let (g4, n4) = <u32 as NetworkAdapter>::dec(b3)->Ok_0;
            lemma_skip_skip(b, n1, n2);
            assert(b2 == b.skip(n1 + n2));
            lemma_skip_skip(b, n1 + n2, n3);
            assert(b3 == b.skip(n1 + n2 + n3));
            lemma_skip_skip(b, n1 + n2 + n3, n4);
            assert(b3.skip(n4) == b.skip(n1 + n2 + n3 + n4));
        }
        Ok(OtherHit { time: x1, bullet_id: x2, object_id: x3, target_id: x4 })
    }

    fn put_be(self, out: &mut Vec<u8>) -> (res: Result<(), Error>) {
        let ghost m = self.model();
        let OtherHit { time, bullet_id, object_id, target_id } = self;
        let ghost e1 = <u32 as NetworkAdapter>::enc_model(m.time);
        let ghost e2 = <u8 as NetworkAdapter>::enc_model(m.bullet_id);
        let ghost e3 = <u32 as NetworkAdapter>::enc_model(m.object_id);
        let ghost e4 = <u32 as NetworkAdapter>::enc_model(m.target_id);
        let ghost p1 = e1;
        let ghost p2 = p1 + e2;
        let ghost p3 = p2 + e3;
        let ghost p4 = p3 + e4;
        let mut tmp: Vec<u8> = Vec::new();
        let ghost o0 = tmp@;
        match time.put_be(&mut tmp) {
            Ok(()) => {},
            Err(e) => {
                return Err(e);
            },
        };
        let ghost o1 = tmp@;
        proof {
            assert(time == m.time);
            assert(o1 == o0 + p1);
        }
        match bullet_id.put_be(&mut tmp) {
            Ok(()) => {},
            Err(e) => {
                return Err(e);
            },
        };
        let ghost o2 = tmp@;
        proof {
            assert(bullet_id == m.bullet_id);
            lemma_seq_assoc(o0, p1, e2);
            assert(o2 == o0 + p2);
        }
        match object_id.put_be(&mut tmp) {
            Ok(()) => {},
            Err(e) => {
                return Err(e);
            },
        };
        let ghost o3 = tmp@;
        proof {
            assert(object_id == m.object_id);
            lemma_seq_assoc(o0, p2, e3);
            assert(o3 == o0 + p3);
        }
        match target_id.put_be(&mut tmp) {
            Ok(()) => {},
            Err(e) => {
                return Err(e);
            },
        };
        let ghost o4 = tmp@;
        proof {
            assert(target_id == m.target_id);
            lemma_seq_assoc(o0, p3, e4);
            assert(o4 == o0 + p4);
        }
        out.append(&mut tmp);
        proof {
            assert(Self::enc_model(m) == p4);
            assert(o0 + p4 =~= p4);
            assert(out@ == old(out)@ + Self::enc_model(m));
        }
        Ok(())
    }

    proof fn lemma_dec_enc(m: OtherHit, rest: Seq<u8>) {
        let e1 = <u32 as NetworkAdapter>::enc_model(m.time);
        let e2 = <u8 as NetworkAdapter>::enc_model(m.bullet_id);
        let e3 = <u32 as NetworkAdapter>::enc_model(m.object_id);
        let e4 = <u32 as NetworkAdapter>::enc_model(m.target_id);
        let p1 = e1;
        let p2 = p1 + e2;
        let p3 = p2 + e3;
        let p4 = p3 + e4;
        assert(Self::enc_model(m) == p4);
        let r4 = rest;
        let r3 = e4 + r4;
        let r2 = e3 + r3;
        let r1 = e2 + r2;
        let b = Self::enc_model(m) + rest;
        lemma_seq_assoc(p3, e4, r4);
        assert(p4 + r4 == p3 + r3);
        lemma_seq_assoc(p2, e3, r3);
        assert(p3 + r3 == p2 + r2);
        lemma_seq_assoc(p1, e2, r2);
        assert(p2 + r2 == p1 + r1);
        assert(b == e1 + r1);
        <u32 as NetworkAdapter>::lemma_dec_enc(m.time, r1);
        <u8 as NetworkAdapter>::lemma_dec_enc(m.bullet_id, r2);
        <u32 as NetworkAdapter>::lemma_dec_enc(m.object_id, r3);
        <u32 as NetworkAdapter>::lemma_dec_enc(m.target_id, r4);
        let c1 = b.skip(e1.len() as int);
        lemma_skip_concat(e1, r1);
        assert(c1 == r1);
        let c2 = c1.skip(e2.len() as int);
        lemma_skip_concat(e2, r2);
        assert(c2 == r2);
        let c3 = c2.skip(e3.len() as int);
        lemma_skip_concat(e3, r3);
        assert(c3 == r3);
        assert(Self::enc_model(m).len() == e1.len() + e2.len() + e3.len() + e4.len());
        assert(OtherHit { time: m.time, bullet_id: m.bullet_id, object_id: m.object_id, target_id: m.target_id } =~= m);
    }

    proof fn lemma_enc_dec(b: Seq<u8>, m: OtherHit, n: int) {
        let (g1, n1) = <u32 as NetworkAdapter>::dec(b)->Ok_0;
        <u32 as NetworkAdapter>::lemma_enc_dec(b, g1, n1);
        let b1 = b.skip(n1);
        let (g2, n2) = <u8 as NetworkAdapter>::dec(b1)->Ok_0;
        <u8 as NetworkAdapter>::lemma_enc_dec(b1, g2, n2);
        let b2 = b1.skip(n2);
        let (g3, n3) = <u32 as NetworkAdapter>::dec(b2)->Ok_0;
        <u32 as NetworkAdapter>::lemma_enc_dec(b2, g3, n3);
        let b3 = b2.skip(n3);
        let (g4, n4) = <u32 as NetworkAdapter>::dec(b3)->Ok_0;
        <u32 as NetworkAdapter>::lemma_enc_dec(b3, g4, n4);
        lemma_skip_skip(b, n1, n2);
        assert(b2 == b.skip(n1 + n2));
        lemma_skip_skip(b, n1 + n2, n3);
        assert(b3 == b.skip(n1 + n2 + n3));
        assert(n == n1 + n2 + n3 + n4);
        assert(m.time == g1);
        assert(m.bullet_id == g2);
        assert(m.object_id == g3);
        assert(m.target_id == g4);
        if Self::canon(b) {
            let s1 = n1;
            let s2 = s1 + n2;
            let s3 = s2 + n3;
            let s4 = s3 + n4;
            let q1 = <u32 as NetworkAdapter>::enc_model(m.time);
            assert(q1 == b.take(s1));
            lemma_take_concat(b, s1, n2);
            let q2 = q1 + <u8 as NetworkAdapter>::enc_model(m.bullet_id);
            assert(q2 == b.take(s2));
            lemma_take_concat(b, s2, n3);
            let q3 = q2 + <u32 as NetworkAdapter>::enc_model(m.object_id);
            assert(q3 == b.take(s3));
            lemma_take_concat(b, s3, n4);
            let q4 = q3 + <u32 as NetworkAdapter>::enc_model(m.target_id);
            assert(q4 == b.take(s4));
            assert(Self::enc_model(m) == q4);
            assert(Self::enc_model(m) == b.take(n));
        }
    }
}

#[verifier::ext_equal]
#[derive(Debug, PartialEq, Clone)]
pub struct PetChangeFormMsg {
    pub instance_id: u32,
    pub picked_new_pet_type: u32,
    pub item: SlotObjectData,
}

impl NetworkAdapter for PetChangeFormMsg {
    type Model = PetChangeFormMsg;

    open spec fn model(self) -> PetChangeFormMsg {
        self
    }

    open spec fn enc_model(m: PetChangeFormMsg) -> Seq<u8> {
        <u32 as NetworkAdapter>::enc_model(m.instance_id) + <u32 as NetworkAdapter>::enc_model(m.picked_new_pet_type) + <SlotObjectData as NetworkAdapter>::enc_model(m.item)
    }

    open spec fn valid_model(m: PetChangeFormMsg) -> bool {
        <u32 as NetworkAdapter>::valid_model(m.instance_id) && <u32 as NetworkAdapter>::valid_model(m.picked_new_pet_type) && <SlotObjectData as NetworkAdapter>::valid_model(m.item)
    }

    closed spec fn dec(b: Seq<u8>) -> Result<(PetChangeFormMsg, int), Error> {
        match <u32 as NetworkAdapter>::dec(b) {
            Ok((g1, n1)) => {
                let b1 = b.skip(n1);
                match <u32 as NetworkAdapter>::dec(b1) {
                    Ok((g2, n2)) => {
                        let b2 = b1.skip(n2);
                        match <SlotObjectData as NetworkAdapter>::dec(b2) {
                            Ok((g3, n3)) => {
                                Ok((PetChangeFormMsg { instance_id: g1, picked_new_pet_type: g2, item: g3 }, n1 + n2 + n3))
                            },
                            Err(e) => Err(e),
                        }
                    },
                    Err(e) => Err(e),
                }
            },
            Err(e) => Err(e),
        }
    }

    closed spec fn canon(b: Seq<u8>) -> bool {
        match <u32 as NetworkAdapter>::dec(b) {
            Ok((g1, n1)) => <u32 as NetworkAdapter>::canon(b) && {
                let b1 = b.skip(n1);
                match <u32 as NetworkAdapter>::dec(b1) {
                    Ok((g2, n2)) => <u32 as NetworkAdapter>::canon(b1) && {
                        let b2 = b1.skip(n2);
                        match <SlotObjectData as NetworkAdapter>::dec(b2) {
                            Ok((g3, n3)) => <SlotObjectData as NetworkAdapter>::canon(b2) && {
                                true
                            },
                            Err(e) => true,
                        }
                    },
                    Err(e) => true,
                }
            },
            Err(e) => true,
        }
    }

    fn get_be(r: &mut Reader) -> (res: Result<PetChangeFormMsg, Error>) {
        let ghost b = old(r).remaining_bytes();
        let save = r.position();
        let x1 = match <u32 as NetworkAdapter>::get_be(r) {
            Ok(v) => v,
            Err(e) => {
                r.seek(save);
                return Err(e);
            },
        };
        let x2 = match <u32 as NetworkAdapter>::get_be(r) {
            Ok(v) => v,
            Err(e) => {
                r.seek(save);
                return Err(e);
            },
        };
        let x3 = match <SlotObjectData as NetworkAdapter>::get_be(r) {
            Ok(v) => v,
            Err(e) => {
                r.seek(save);
                return Err(e);
            },
        };
        proof {
            let (g1, n1) = <u32 as NetworkAdapter>::dec(b)->Ok_0;
            let b1 = b.skip(n1);
            let (g2, n2) = <u32 as NetworkAdapter>::dec(b1)->Ok_0;
            let b2 = b1.skip(n2);
            let (g3, n3) = <SlotObjectData as NetworkAdapter>::dec(b2)->Ok_0;
            lemma_skip_skip(b, n1, n2);
            assert(b2 == b.skip(n1 + n2));
            lemma_skip_skip(b, n1 + n2, n3);
            assert(b2.skip(n3) == b.skip(n1 + n2 + n3));
        }
        Ok(PetChangeFormMsg { instance_id: x1, picked_new_pet_type: x2, item: x3 })
    }

    fn put_be(self, out: &mut Vec<u8>) -> (res: Result<(), Error>) {
        let ghost m = self.model();
        let PetChangeFormMsg { instance_id, picked_new_pet_type, item } = self;
        let ghost e1 = <u32 as NetworkAdapter>::enc_model(m.instance_id);
        let ghost e2 = <u32 as NetworkAdapter>::enc_model(m.picked_new_pet_type);
        let ghost e3 = <SlotObjectData as NetworkAdapter>::enc_model(m.item);
        let ghost p1 = e1;
        let ghost p2 = p1 + e2;
        let ghost p3 = p2 + e3;
        let mut tmp: Vec<u8> = Vec::new();
        let ghost o0 = tmp@;
        match instance_id.put_be(&mut tmp) {
            Ok(()) => {},
            Err(e) => {
                return Err(e);
            },
        };
        let ghost o1 = tmp@;
        proof {
            assert(instance_id == m.instance_id);
            assert(o1 == o0 + p1);
        }
        match picked_new_pet_type.put_be(&mut tmp) {
            Ok(()) => {},
            Err(e) => {
                return Err(e);
            },
        };
        let ghost o2 = tmp@;
        proof {
            assert(picked_new_pet_type == m.picked_new_pet_type);
            lemma_seq_assoc(o0, p1, e2);
            assert(o2 == o0 + p2);
        }
        match item.put_be(&mut tmp) {
            Ok(()) => {},
            Err(e) => {
                return Err(e);
            },
        };
        let ghost o3 = tmp@;
        proof {
            assert(item == m.item);
            lemma_seq_assoc(o0, p2, e3);
            assert(o3 == o0 + p3);
        }
        out.append(&mut tmp);
        proof {
            assert(Self::enc_model(m) == p3);
            assert(o0 + p3 =~= p3);
            assert(out@ == old(out)@ + Self::enc_model(m));
        }
        Ok(())
    }

    proof fn lemma_dec_enc(m: PetChangeFormMsg, rest: Seq<u8>) {
        let e1 = <u32 as NetworkAdapter>::enc_model(m.instance_id);
        let e2 = <u32 as NetworkAdapter>::enc_model(m.picked_new_pet_type);
        let e3 = <SlotObjectData as NetworkAdapter>::enc_model(m.item);
        let p1 = e1;
        let p2 = p1 + e2;
        let p3 = p2 + e3;
        assert(Self::enc_model(m) == p3);
        let r3 = rest;
        let r2 = e3 + r3;
        let r1 = e2 + r2;
        let b = Self::enc_model(m) + rest;
        lemma_seq_assoc(p2, e3, r3);
        assert(p3 + r3 == p2 + r2);
        lemma_seq_assoc(p1, e2, r2);
        assert(p2 + r2 == p1 + r1);
        assert(b == e1 + r1);
        <u32 as NetworkAdapter>::lemma_dec_enc(m.instance_id, r1);
        <u32 as NetworkAdapter>::lemma_dec_enc(m.picked_new_pet_type, r2);
        <SlotObjectData as NetworkAdapter>::lemma_dec_enc(m.item, r3);
        let c1 = b.skip(e1.len() as int);
        lemma_skip_concat(e1, r1);
        assert(c1 == r1);
        let c2 = c1.skip(e2.len() as int);
        lemma_skip_concat(e2, r2);
        assert(c2 == r2);
        assert(Self::enc_model(m).len() == e1.len() + e2.len() + e3.len());
        assert(PetChangeFormMsg { instance_id: m.instance_id, picked_new_pet_type: m.picked_new_pet_type, item: m.item } =~= m);
    }

    proof fn lemma_enc_dec(b: Seq<u8>, m: PetChangeFormMsg, n: int) {
        let (g1, n1) = <u32 as NetworkAdapter>::dec(b)->Ok_0;
        <u32 as NetworkAdapter>::lemma_enc_dec(b, g1, n1);
        let b1 = b.skip(n1);
        let (g2, n2) = <u32 as NetworkAdapter>::dec(b1)->Ok_0;
        <u32 as NetworkAdapter>::lemma_enc_dec(b1, g2, n2);
        let b2 = b1.skip(n2);
        let (g3, n3) = <SlotObjectData as NetworkAdapter>::dec(b2)->Ok_0;
        <SlotObjectData as NetworkAdapter>::lemma_enc_dec(b2, g3, n3);
        lemma_skip_skip(b, n1, n2);
        assert(b2 == b.skip(n1 + n2));
        assert(n == n1 + n2 + n3);
        assert(m.instance_id == g1);
        assert(m.picked_new_pet_type == g2);
        assert(m.item == g3);
        if Self::canon(b) {
            let s1 = n1;
            let s2 = s1 + n2;
            let s3 = s2 + n3;
            let q1 = <u32 as NetworkAdapter>::enc_model(m.instance_id);
            assert(q1 == b.take(s1));
            lemma_take_concat(b, s1, n2);
            let q2 = q1 + <u32 as NetworkAdapter>::enc_model(m.picked_new_pet_type);
            assert(q2 == b.take(s2));
            lemma_take_concat(b, s2, n3);
            let q3 = q2 + <SlotObjectData as NetworkAdapter>::enc_model(m.item);
            assert(q3 == b.take(s3));
            assert(Self::enc_model(m) == q3);
            assert(Self::enc_model(m) == b.take(n));
        }
    }
}

#[verifier::ext_equal]
#[derive(Debug, PartialEq, Clone)]
pub struct PetChangeSkinMsg {
    pub pet_id: u32,
    pub skin_type: u32,
    pub currency: u32,
}

impl NetworkAdapter for PetChangeSkinMsg {
    type Model = PetChangeSkinMsg;

    open spec fn model(self) -> PetChangeSkinMsg {
        self
    }

    open spec fn enc_model(m: PetChangeSkinMsg) -> Seq<u8> {
        <u32 as NetworkAdapter>::enc_model(m.pet_id) + <u32 as NetworkAdapter>::enc_model(m.skin_type) + <u32 as NetworkAdapter>::enc_model(m.currency)
    }

    open spec fn valid_model(m: PetChangeSkinMsg) -> bool {
        <u32 as NetworkAdapter>::valid_model(m.pet_id) && <u32 as NetworkAdapter>::valid_model(m.skin_type) && <u32 as NetworkAdapter>::valid_model(m.currency)
    }

    closed spec fn dec(b: Seq<u8>) -> Result<(PetChangeSkinMsg, int), Error> {
        match <u32 as NetworkAdapter>::dec(b) {
            Ok((g1, n1)) => {
                let b1 = b.skip(n1);
                match <u32 as NetworkAdapter>::dec(b1) {
                    Ok((g2, n2)) => {
                        let b2 = b1.skip(n2);
                        match <u32 as NetworkAdapter>::dec(b2) {
                            Ok((g3, n3)) => {
                                Ok((PetChangeSkinMsg { pet_id: g1, skin_type: g2, currency: g3 }, n1 + n2 + n3))
                            },
                            Err(e) => Err(e),
                        }
                    },
                    Err(e) => Err(e),
                }
            },
            Err(e) => Err(e),
        }
    }

    closed spec fn canon(b: Seq<u8>) -> bool {
        match <u32 as NetworkAdapter>::dec(b) {
            Ok((g1, n1)) => <u32 as NetworkAdapter>::canon(b) && {
                let b1 = b.skip(n1);
                match <u32 as NetworkAdapter>::dec(b1) {
                    Ok((g2, n2)) => <u32 as NetworkAdapter>::canon(b1) && {
                        let b2 = b1.skip(n2);
                        match <u32 as NetworkAdapter>::dec(b2) {
                            Ok((g3, n3)) => <u32 as NetworkAdapter>::canon(b2) && {
                                true
                            },
                            Err(e) => true,
                        }
                    },
                    Err(e) => true,
                }
            },
            Err(e) => true,
        }
    }

    fn get_be(r: &mut Reader) -> (res: Result<PetChangeSkinMsg, Error>) {
        let ghost b = old(r).remaining_bytes();
        let save = r.position();
        let x1 = match <u32 as NetworkAdapter>::get_be(r) {
            Ok(v) => v,
            Err(e) => {
                r.seek(save);
                return Err(e);
            },
        };
        let x2 = match <u32 as NetworkAdapter>::get_be(r) {
            Ok(v) => v,
            Err(e) => {
                r.seek(save);
                return Err(e);
            },
        };
        let x3 = match <u32 as NetworkAdapter>::get_be(r) {
            Ok(v) => v,
            Err(e) => {
                r.seek(save);
                return Err(e);
            },
        };
        proof {
            let (g1, n1) = <u32 as NetworkAdapter>::dec(b)->Ok_0;
            let b1 = b.skip(n1);
            let (g2, n2) = <u32 as NetworkAdapter>::dec(b1)->Ok_0;
            let b2 = b1.skip(n2);
            let (g3, n3) = <u32 as NetworkAdapter>::dec(b2)->Ok_0;
            lemma_skip_skip(b, n1, n2);
            assert(b2 == b.skip(n1 + n2));
            lemma_skip_skip(b, n1 + n2, n3);
            assert(b2.skip(n3) == b.skip(n1 + n2 + n3));
        }
        Ok(PetChangeSkinMsg { pet_id: x1, skin_type: x2, currency: x3 })
    }

    fn put_be(self, out: &mut Vec<u8>) -> (res: Result<(), Error>) {
        let ghost m = self.model();
        let PetChangeSkinMsg { pet_id, skin_type, currency } = self;
        let ghost e1 = <u32 as NetworkAdapter>::enc_model(m.pet_id);
        let ghost e2 = <u32 as NetworkAdapter>::enc_model(m.skin_type);
        let ghost e3 = <u32 as NetworkAdapter>::enc_model(m.currency);
        let ghost p1 = e1;
        let ghost p2 = p1 + e2;
        let ghost p3 = p2 + e3;
        let mut tmp: Vec<u8> = Vec::new();
        let ghost o0 = tmp@;
        match pet_id.put_be(&mut tmp) {
            Ok(()) => {},
            Err(e) => {
                return Err(e);
            },
        };
        let ghost o1 = tmp@;
        proof {
            assert(pet_id == m.pet_id);
            assert(o1 == o0 + p1);
        }
        match skin_type.put_be(&mut tmp) {
            Ok(()) => {},
            Err(e) => {
                return Err(e);
            },
        };
        let ghost o2 = tmp@;
        proof {
            assert(skin_type == m.skin_type);
            lemma_seq_assoc(o0, p1, e2);
            assert(o2 == o0 + p2);
        }
        match currency.put_be(&mut tmp) {
            Ok(()) => {},
            Err(e) => {
                return Err(e);
            },
        };
        let ghost o3 = tmp@;
        proof {
            assert(currency == m.currency);
            lemma_seq_assoc(o0, p2, e3);
            assert(o3 == o0 + p3);
        }
        out.append(&mut tmp);
        proof {
            assert(Self::enc_model(m) == p3);
            assert(o0 + p3 =~= p3);
            assert(out@ == old(out)@ + Self::enc_model(m));
        }
        Ok(())
    }

    proof fn lemma_dec_enc(m: PetChangeSkinMsg, rest: Seq<u8>) {
        let e1 = <u32 as NetworkAdapter>::enc_model(m.pet_id);
        let e2 = <u32 as NetworkAdapter>::enc_model(m.skin_type);
        let e3 = <u32 as NetworkAdapter>::enc_model(m.currency);
        let p1 = e1;
        let p2 = p1 + e2;
        let p3 = p2 + e3;
        assert(Self::enc_model(m) == p3);
        let r3 = rest;
        let r2 = e3 + r3;
        let r1 = e2 + r2;
        let b = Self::enc_model(m) + rest;
        lemma_seq_assoc(p2, e3, r3);
        assert(p3 + r3 == p2 + r2);
        lemma_seq_assoc(p1, e2, r2);
        assert(p2 + r2 == p1 + r1);
        assert(b == e1 + r1);
        <u32 as NetworkAdapter>::lemma_dec_enc(m.pet_id, r1);
        <u32 as NetworkAdapter>::lemma_dec_enc(m.skin_type, r2);
        <u32 as NetworkAdapter>::lemma_dec_enc(m.currency, r3);
        let c1 = b.skip(e1.len() as int);
        lemma_skip_concat(e1, r1);
        assert(c1 == r1);
        let c2 = c1.skip(e2.len() as int);
        lemma_skip_concat(e2, r2);
        assert(c2 == r2);
        assert(Self::enc_model(m).len() == e1.len() + e2.len() + e3.len());
        assert(PetChangeSkinMsg { pet_id: m.pet_id, skin_type: m.skin_type, currency: m.currency } =~= m);
    }

    proof fn lemma_enc_dec(b: Seq<u8>, m: PetChangeSkinMsg, n: int) {
        let (g1, n1) = <u32 as NetworkAdapter>::dec(b)->Ok_0;
        <u32 as NetworkAdapter>::lemma_enc_dec(b, g1, n1);
        let b1 = b.skip(n1);
        let (g2, n2) = <u32 as NetworkAdapter>::dec(b1)->Ok_0;
        <u32 as NetworkAdapter>::lemma_enc_dec(b1, g2, n2);
        let b2 = b1.skip(n2);
        let (g3, n3) = <u32 as NetworkAdapter>::dec(b2)->Ok_0;
        <u32 as NetworkAdapter>::lemma_enc_dec(b2, g3, n3);
        lemma_skip_skip(b, n1, n2);
        assert(b2 == b.skip(n1 + n2));
        assert(n == n1 + n2 + n3);
        assert(m.pet_id == g1);
        assert(m.skin_type == g2);
        assert(m.currency == g3);
        if Self::canon(b) {
            let s1 = n1;
            let s2 = s1 + n2;
            let s3 = s2 + n3;
            let q1 = <u32 as NetworkAdapter>::enc_model(m.pet_id);
            assert(q1 == b.take(s1));
            lemma_take_concat(b, s1, n2);
            let q2 = q1 + <u32 as NetworkAdapter>::enc_model(m.skin_type);
            assert(q2 == b.take(s2));
            lemma_take_concat(b, s2, n3);
            let q3 = q2 + <u32 as NetworkAdapter>::enc_model(m.currency);
            assert(q3 == b.take(s3));
            assert(Self::enc_model(m) == q3);
            assert(Self::enc_model(m) == b.take(n));
        }
    }
}

#[verifier::ext_equal]
#[derive(Debug, PartialEq, Clone)]
pub struct PetUpgradeRequest {
    pub pet_trans_type: u8,
    pub pid_one: u32,
    pub pid_two: u32,
    pub object_id: u32,
    pub payment_trans_type: u8,
    pub slots: RLE<Vec<SlotObjectData>, u16>,
}

/// The mathematical model of a decoded `PetUpgradeRequest`.
#[verifier::ext_equal]
pub struct PetUpgradeRequestModel {
    pub pet_trans_type: u8,
    pub pid_one: u32,
    pub pid_two: u32,
    pub object_id: u32,
    pub payment_trans_type: u8,
    pub slots: Seq<SlotObjectData>,
}

impl NetworkAdapter for PetUpgradeRequest {
    type Model = PetUpgradeRequestModel;

    open spec fn model(self) -> PetUpgradeRequestModel {
        PetUpgradeRequestModel {
            pet_trans_type: self.pet_trans_type.model(),
            pid_one: self.pid_one.model(),
            pid_two: self.pid_two.model(),
            object_id: self.object_id.model(),
            payment_trans_type: self.payment_trans_type.model(),
            slots: self.slots.model(),
        }
    }

    open spec fn enc_model(m: PetUpgradeRequestModel) -> Seq<u8> {
        <u8 as NetworkAdapter>::enc_model(m.pet_trans_type) + <u32 as NetworkAdapter>::enc_model(m.pid_one) + <u32 as NetworkAdapter>::enc_model(m.pid_two) + <u32 as NetworkAdapter>::enc_model(m.object_id) + <u8 as NetworkAdapter>::enc_model(m.payment_trans_type) + <RLE<Vec<SlotObjectData>, u16> as NetworkAdapter>::enc_model(m.slots)
    }

    open spec fn valid_model(m: PetUpgradeRequestModel) -> bool {
        <u8 as NetworkAdapter>::valid_model(m.pet_trans_type) && <u32 as NetworkAdapter>::valid_model(m.pid_one) && <u32 as NetworkAdapter>::valid_model(m.pid_two) && <u32 as NetworkAdapter>::valid_model(m.object_id) && <u8 as NetworkAdapter>::valid_model(m.payment_trans_type) && <RLE<Vec<SlotObjectData>, u16> as NetworkAdapter>::valid_model(m.slots)
    }

    closed spec fn dec(b: Seq<u8>) -> Result<(PetUpgradeRequestModel, int), Error> {
        match <u8 as NetworkAdapter>::dec(b) {
            Ok((g1, n1)) => {
                let b1 = b.skip(n1);
                match <u32 as NetworkAdapter>::dec(b1) {
                    Ok((g2, n2)) => {
                        let b2 = b1.skip(n2);
                        match <u32 as NetworkAdapter>::dec(b2) {
                            Ok((g3, n3)) => {
                                let b3 = b2.skip(n3);
                                match <u32 as NetworkAdapter>::dec(b3) {
                                    Ok((g4, n4)) => {
                                        let b4 = b3.skip(n4);
                                        match <u8 as NetworkAdapter>::dec(b4) {
                                            Ok((g5, n5)) => {
                                                let b5 = b4.skip(n5);
                                                match <RLE<Vec<SlotObjectData>, u16> as NetworkAdapter>::dec(b5) {
                                                    Ok((g6, n6)) => {
                                                        Ok((PetUpgradeRequestModel { pet_trans_type: g1, pid_one: g2, pid_two: g3, object_id: g4, payment_trans_type: g5, slots: g6 }, n1 + n2 + n3 + n4 + n5 + n6))
                                                    },
                                                    Err(e) => Err(e),
                                                }
                                            },
                                            Err(e) => Err(e),
                                        }
                                    },
                                    Err(e) => Err(e),
                                }
                            },
                            Err(e) => Err(e),
                        }
                    },
                    Err(e) => Err(e),
                }
            },
            Err(e) => Err(e),
        }
    }

    closed spec fn canon(b: Seq<u8>) -> bool {
        match <u8 as NetworkAdapter>::dec(b) {
            Ok((g1, n1)) => <u8 as NetworkAdapter>::canon(b) && {
                let b1 = b.skip(n1);
                match <u32 as NetworkAdapter>::dec(b1) {
                    Ok((g2, n2)) => <u32 as NetworkAdapter>::canon(b1) && {
                        let b2 = b1.skip(n2);
                        match <u32 as NetworkAdapter>::dec(b2) {
                            Ok((g3, n3)) => <u32 as NetworkAdapter>::canon(b2) && {
                                let b3 = b2.skip(n3);
                                match <u32 as NetworkAdapter>::dec(b3) {
                                    Ok((g4, n4)) => <u32 as NetworkAdapter>::canon(b3) && {
                                        let b4 = b3.skip(n4);
                                        match <u8 as NetworkAdapter>::dec(b4) {
                                            Ok((g5, n5)) => <u8 as NetworkAdapter>::canon(b4) && {
                                                let b5 = b4.skip(n5);
                                                match <RLE<Vec<SlotObjectData>, u16> as NetworkAdapter>::dec(b5) {
                                                    Ok((g6, n6)) => <RLE<Vec<SlotObjectData>, u16> as NetworkAdapter>::canon(b5) && {
                                                        true
                                                    },
                                                    Err(e) => true,
                                                }
                                            },
                                            Err(e) => true,
                                        }
                                    },
                                    Err(e) => true,
                                }
                            },
                            Err(e) => true,
                        }
                    },
                    Err(e) => true,
                }
            },
            Err(e) => true,
        }
    }

    #[verifier::rlimit(100)]
    #[verifier::spinoff_prover]
    fn get_be(r: &mut Reader) -> (res: Result<PetUpgradeRequest, Error>) {
        let ghost b = old(r).remaining_bytes();
        let save = r.position();
        let x1 = match <u8 as NetworkAdapter>::get_be(r) {
            Ok(v) => v,
            Err(e) => {
                r.seek(save);
                return Err(e);
            },
        };
        let x2 = match <u32 as NetworkAdapter>::get_be(r) {
            Ok(v) => v,
            Err(e) => {
                r.seek(save);
                return Err(e);
            },
        };
        let x3 = match <u32 as NetworkAdapter>::get_be(r) {
            Ok(v) => v,
            Err(e) => {
                r.seek(save);
                return Err(e);
            },
        };
        let x4 = match <u32 as NetworkAdapter>::get_be(r) {
            Ok(v) => v,
            Err(e) => {
                r.seek(save);
                return Err(e);
            },
        };
        let x5 = match <u8 as NetworkAdapter>::get_be(r) {
            Ok(v) => v,
            Err(e) => {
                r.seek(save);
                return Err(e);
            },
        };
        let x6 = match <RLE<Vec<SlotObjectData>, u16> as NetworkAdapter>::get_be(r) {
            Ok(v) => v,
            Err(e) => {
                r.seek(save);
                return Err(e);
            },
        };
        proof {
            let (g1, n1) = <u8 as NetworkAdapter>::dec(b)->Ok_0;
            let b1 = b.skip(n1);
            let (g2, n2) = <u32 as NetworkAdapter>::dec(b1)->Ok_0;
            let b2 = b1.skip(n2);
            let (g3, n3) = <u32 as NetworkAdapter>::dec(b2)->Ok_0;
            let b3 = b2.skip(n3);
            let (g4, n4) = <u32 as NetworkAdapter>::dec(b3)->Ok_0;
            let b4 = b3.skip(n4);
            let (g5, n5) = <u8 as NetworkAdapter>::dec(b4)->Ok_0;
            let b5 = b4.skip(n5);
            let (g6, n6) = <RLE<Vec<SlotObjectData>, u16> as NetworkAdapter>::dec(b5)->Ok_0;
            lemma_skip_skip(b, n1, n2);
            assert(b2 == b.skip(n1 + n2));
            lemma_skip_skip(b, n1 + n2, n3);
            assert(b3 == b.skip(n1 + n2 + n3));
            lemma_skip_skip(b, n1 + n2 + n3, n4);
            assert(b4 == b.skip(n1 + n2 + n3 + n4));
            lemma_skip_skip(b, n1 + n2 + n3 + n4, n5);
            assert(b5 == b.skip(n1 + n2 + n3 + n4 + n5));
            lemma_skip_skip(b, n1 + n2 + n3 + n4 + n5, n6);
            assert(b5.skip(n6) == b.skip(n1 + n2 + n3 + n4 + n5 + n6));
        }
        Ok(PetUpgradeRequest { pet_trans_type: x1, pid_one: x2, pid_two: x3, object_id: x4, payment_trans_type: x5, slots: x6 })
    }

    #[verifier::rlimit(100)]
    #[verifier::spinoff_prover]
    fn put_be(self, out: &mut Vec<u8>) -> (res: Result<(), Error>) {
        let ghost m = self.model();
        let PetUpgradeRequest { pet_trans_type, pid_one, pid_two, object_id, payment_trans_type, slots } = self;
        let ghost e1 = <u8 as NetworkAdapter>::enc_model(m.pet_trans_type);
        let ghost e2 = <u32 as NetworkAdapter>::enc_model(m.pid_one);
        let ghost e3 = <u32 as NetworkAdapter>::enc_model(m.pid_two);
        let ghost e4 = <u32 as NetworkAdapter>::enc_model(m.object_id);
        let ghost e5 = <u8 as NetworkAdapter>::enc_model(m.payment_trans_type);
        let ghost e6 = <RLE<Vec<SlotObjectData>, u16> as NetworkAdapter>::enc_model(m.slots);
        let ghost p1 = e1;
        let ghost p2 = p1 + e2;
        let ghost p3 = p2 + e3;
        let ghost p4 = p3 + e4;
        let ghost p5 = p4 + e5;
        let ghost p6 = p5 + e6;
        let mut tmp: Vec<u8> = Vec::new();
        let ghost o0 = tmp@;
        match pet_trans_type.put_be(&mut tmp) {
            Ok(()) => {},
            Err(e) => {
                return Err(e);
            },
        };
        let ghost o1 = tmp@;
        proof {
            assert(pet_trans_type.model() == m.pet_trans_type);
            assert(o1 == o0 + p1);
        }
        match pid_one.put_be(&mut tmp) {
            Ok(()) => {},
            Err(e) => {
                return Err(e);
            },
        };
        let ghost o2 = tmp@;
        proof {
            assert(pid_one.model() == m.pid_one);
            lemma_seq_assoc(o0, p1, e2);
            assert(o2 == o0 + p2);
        }
        match pid_two.put_be(&mut tmp) {
            Ok(()) => {},
            Err(e) => {
                return Err(e);
            },
        };
        let ghost o3 = tmp@;
        proof {
            assert(pid_two.model() == m.pid_two);
            lemma_seq_assoc(o0, p2, e3);
            assert(o3 == o0 + p3);
        }
        match object_id.put_be(&mut tmp) {
            Ok(()) => {},
            Err(e) => {
                return Err(e);
            },
        };
        let ghost o4 = tmp@;
        proof {
            assert(object_id.model() == m.object_id);
            lemma_seq_assoc(o0, p3, e4);
            assert(o4 == o0 + p4);
        }
        match payment_trans_type.put_be(&mut tmp) {
            Ok(()) => {},
            Err(e) => {
                return Err(e);
            },
        };
        let ghost o5 = tmp@;
        proof {
            assert(payment_trans_type.model() == m.payment_trans_type);
            lemma_seq_assoc(o0, p4, e5);
            assert(o5 == o0 + p5);
        }
        match slots.put_be(&mut tmp) {
            Ok(()) => {},
            Err(e) => {
                return Err(e);
            },
        };
        let ghost o6 = tmp@;
        proof {
            assert(slots.model() == m.slots);
            lemma_seq_assoc(o0, p5, e6);
            assert(o6 == o0 + p6);
        }
        out.append(&mut tmp);
        proof {
            assert(Self::enc_model(m) == p6);
            assert(o0 + p6 =~= p6);
            assert(out@ == old(out)@ + Self::enc_model(m));
        }
        Ok(())
    }

    #[verifier::rlimit(100)]
    #[verifier::spinoff_prover]
    proof fn lemma_dec_enc(m: PetUpgradeRequestModel, rest: Seq<u8>) {
        let e1 = <u8 as NetworkAdapter>::enc_model(m.pet_trans_type);
        let e2 = <u32 as NetworkAdapter>::enc_model(m.pid_one);
        let e3 = <u32 as NetworkAdapter>::enc_model(m.pid_two);
        let e4 = <u32 as NetworkAdapter>::enc_model(m.object_id);
        let e5 = <u8 as NetworkAdapter>::enc_model(m.payment_trans_type);
        let e6 = <RLE<Vec<SlotObjectData>, u16> as NetworkAdapter>::enc_model(m.slots);
        let p1 = e1;
        let p2 = p1 + e2;
        let p3 = p2 + e3;
        let p4 = p3 + e4;
        let p5 = p4 + e5;
        let p6 = p5 + e6;
        assert(Self::enc_model(m) == p6);
        let r6 = rest;
        let r5 = e6 + r6;
        let r4 = e5 + r5;
        let r3 = e4 + r4;
        let r2 = e3 + r3;
        let r1 = e2 + r2;
        let b = Self::enc_model(m) + rest;
        lemma_seq_assoc(p5, e6, r6);
        assert(p6 + r6 == p5 + r5);
        lemma_seq_assoc(p4, e5, r5);
        assert(p5 + r5 == p4 + r4);
        lemma_seq_assoc(p3, e4, r4);
        assert(p4 + r4 == p3 + r3);
        lemma_seq_assoc(p2, e3, r3);
        assert(p3 + r3 == p2 + r2);
        lemma_seq_assoc(p1, e2, r2);
        assert(p2 + r2 == p1 + r1);
        assert(b == e1 + r1);
        <u8 as NetworkAdapter>::lemma_dec_enc(m.pet_trans_type, r1);
        <u32 as NetworkAdapter>::lemma_dec_enc(m.pid_one, r2);
        <u32 as NetworkAdapter>::lemma_dec_enc(m.pid_two, r3);
        <u32 as NetworkAdapter>::lemma_dec_enc(m.object_id, r4);
        <u8 as NetworkAdapter>::lemma_dec_enc(m.payment_trans_type, r5);
        <RLE<Vec<SlotObjectData>, u16> as NetworkAdapter>::lemma_dec_enc(m.slots, r6);
        let c1 = b.skip(e1.len() as int);
        lemma_skip_concat(e1, r1);
        assert(c1 == r1);
        let c2 = c1.skip(e2.len() as int);
        lemma_skip_concat(e2, r2);
        assert(c2 == r2);
        let c3 = c2.skip(e3.len() as int);
        lemma_skip_concat(e3, r3);
        assert(c3 == r3);
        let c4 = c3.skip(e4.len() as int);
        lemma_skip_concat(e4, r4);
        assert(c4 == r4);
        let c5 = c4.skip(e5.len() as int);
        lemma_skip_concat(e5, r5);
        assert(c5 == r5);
        assert(Self::enc_model(m).len() == e1.len() + e2.len() + e3.len() + e4.len() + e5.len() + e6.len());
        assert(PetUpgradeRequestModel { pet_trans_type: m.pet_trans_type, pid_one: m.pid_one, pid_two: m.pid_two, object_id: m.object_id, payment_trans_type: m.payment_trans_type, slots: m.slots } =~= m);
    }

    #[verifier::rlimit(100)]
    #[verifier::spinoff_prover]
    proof fn lemma_enc_dec(b: Seq<u8>, m: PetUpgradeRequestModel, n: int) {
        let (g1, n1) = <u8 as NetworkAdapter>::dec(b)->Ok_0;
        <u8 as NetworkAdapter>::lemma_enc_dec(b, g1, n1);
        let b1 = b.skip(n1);
        let (g2, n2) = <u32 as NetworkAdapter>::dec(b1)->Ok_0;
        <u32 as NetworkAdapter>::lemma_enc_dec(b1, g2, n2);
        let b2 = b1.skip(n2);
        let (g3, n3) = <u32 as NetworkAdapter>::dec(b2)->Ok_0;
        <u32 as NetworkAdapter>::lemma_enc_dec(b2, g3, n3);
        let b3 = b2.skip(n3);
        let (g4, n4) = <u32 as NetworkAdapter>::dec(b3)->Ok_0;
        <u32 as NetworkAdapter>::lemma_enc_dec(b3, g4, n4);
        let b4 = b3.skip(n4);
        let (g5, n5) = <u8 as NetworkAdapter>::dec(b4)->Ok_0;
        <u8 as NetworkAdapter>::lemma_enc_dec(b4, g5, n5);
        let b5 = b4.skip(n5);
        let (g6, n6) = <RLE<Vec<SlotObjectData>, u16> as NetworkAdapter>::dec(b5)->Ok_0;
        <RLE<Vec<SlotObjectData>, u16> as NetworkAdapter>::lemma_enc_dec(b5, g6, n6);
        lemma_skip_skip(b, n1, n2);
        assert(b2 == b.skip(n1 + n2));
        lemma_skip_skip(b, n1 + n2, n3);
        assert(b3 == b.skip(n1 + n2 + n3));
        lemma_skip_skip(b, n1 + n2 + n3, n4);
        assert(b4 == b.skip(n1 + n2 + n3 + n4));
        lemma_skip_skip(b, n1 + n2 + n3 + n4, n5);
        assert(b5 == b.skip(n1 + n2 + n3 + n4 + n5));
        assert(n == n1 + n2 + n3 + n4 + n5 + n6);
        assert(m.pet_trans_type == g1);
        assert(m.pid_one == g2);
        assert(m.pid_two == g3);
        assert(m.object_id == g4);
        assert(m.payment_trans_type == g5);
        assert(m.slots == g6);
        if Self::canon(b) {
            let s1 = n1;
            let s2 = s1 + n2;
            let s3 = s2 + n3;
            let s4 = s3 + n4;
            let s5 = s4 + n5;
            let s6 = s5 + n6;
            let q1 = <u8 as NetworkAdapter>::enc_model(m.pet_trans_type);
            assert(q1 == b.take(s1));
            lemma_take_concat(b, s1, n2);
            let q2 = q1 + <u32 as NetworkAdapter>::enc_model(m.pid_one);
            assert(q2 == b.take(s2));
            lemma_take_concat(b, s2, n3);
            let q3 = q2 + <u32 as NetworkAdapter>::enc_model(m.pid_two);
            assert(q3 == b.take(s3));
            lemma_take_concat(b, s3, n4);
            let q4 = q3 + <u32 as NetworkAdapter>::enc_model(m.object_id);
            assert(q4 == b.take(s4));
            lemma_take_concat(b, s4, n5);
            let q5 = q4 + <u8 as NetworkAdapter>::enc_model(m.payment_trans_type);
            assert(q5 == b.take(s5));
            lemma_take_concat(b, s5, n6);
            let q6 = q5 + <RLE<Vec<SlotObjectData>, u16> as NetworkAdapter>::enc_model(m.slots);
            assert(q6 == b.take(s6));
            assert(Self::enc_model(m) == q6);
            assert(Self::enc_model(m) == b.take(n));
        }
    }
}

#[verifier::ext_equal]
#[derive(Debug, PartialEq, Clone)]
pub struct PlayerHit {
    pub bullet_id: u8,
    pub object_id: u32,
}

impl NetworkAdapter for PlayerHit {
    type Model = PlayerHit;

    open spec fn model(self) -> PlayerHit {
        self
    }

    open spec fn enc_model(m: PlayerHit) -> Seq<u8> {
        <u8 as NetworkAdapter>::enc_model(m.bullet_id) + <u32 as NetworkAdapter>::enc_model(m.object_id)
    }

    open spec fn valid_model(m: PlayerHit) -> bool {
        <u8 as NetworkAdapter>::valid_model(m.bullet_id) && <u32 as NetworkAdapter>::valid_model(m.object_id)
    }

    closed spec fn dec(b: Seq<u8>) -> Result<(PlayerHit, int), Error> {
        match <u8 as NetworkAdapter>::dec(b) {
            Ok((g1, n1)) => {
                let b1 = b.skip(n1);
                match <u32 as NetworkAdapter>::dec(b1) {
                    Ok((g2, n2)) => {
                        Ok((PlayerHit { bullet_id: g1, object_id: g2 }, n1 + n2))
                    },
                    Err(e) => Err(e),
                }
            },
            Err(e) => Err(e),
        }
    }

    closed spec fn canon(b: Seq<u8>) -> bool {
        match <u8 as NetworkAdapter>::dec(b) {
            Ok((g1, n1)) => <u8 as NetworkAdapter>::canon(b) && {
                let b1 = b.skip(n1);
                match <u32 as NetworkAdapter>::dec(b1) {
                    Ok((g2, n2)) => <u32 as NetworkAdapter>::canon(b1) && {
                        true
                    },
                    Err(e) => true,
                }
            },
            Err(e) => true,
        }
    }

    fn get_be(r: &mut Reader) -> (res: Result<PlayerHit, Error>) {
        let ghost b = old(r).remaining_bytes();
        let save = r.position();
        let x1 = match <u8 as NetworkAdapter>::get_be(r) {
            Ok(v) => v,
            Err(e) => {
                r.seek(save);
                return Err(e);
            },
        };
        let x2 = match <u32 as NetworkAdapter>::get_be(r) {
            Ok(v) => v,
            Err(e) => {
                r.seek(save);
                return Err(e);
            },
        };
        proof {
            let (g1, n1) = <u8 as NetworkAdapter>::dec(b)->Ok_0;
            let b1 = b.skip(n1);
            let (g2, n2) = <u32 as NetworkAdapter>::dec(b1)->Ok_0;
            lemma_skip_skip(b, n1, n2);
            assert(b1.skip(n2) == b.skip(n1 + n2));
        }
        Ok(PlayerHit { bullet_id: x1, object_id: x2 })
    }

    fn put_be(self, out: &mut Vec<u8>) -> (res: Result<(), Error>) {
        let ghost m = self.model();
        let PlayerHit { bullet_id, object_id } = self;
        let ghost e1 = <u8 as NetworkAdapter>::enc_model(m.bullet_id);
        let ghost e2 = <u32 as NetworkAdapter>::enc_model(m.object_id);
        let ghost p1 = e1;
        let ghost p2 = p1 + e2;
        let mut tmp: Vec<u8> = Vec::new();
        let ghost o0 = tmp@;
        match bullet_id.put_be(&mut tmp) {
            Ok(()) => {},
            Err(e) => {
                return Err(e);
            },
        };
        let ghost o1 = tmp@;
        proof {
            assert(bullet_id == m.bullet_id);
            assert(o1 == o0 + p1);
        }
        match object_id.put_be(&mut tmp) {
            Ok(()) => {},
            Err(e) => {
                return Err(e);
            },
        };
        let ghost o2 = tmp@;
        proof {
            assert(object_id == m.object_id);
            lemma_seq_assoc(o0, p1, e2);
            assert(o2 == o0 + p2);
        }
        out.append(&mut tmp);
        proof {
            assert(Self::enc_model(m) == p2);
            assert(o0 + p2 =~= p2);
            assert(out@ == old(out)@ + Self::enc_model(m));
        }
        Ok(())
    }

    proof fn lemma_dec_enc(m: PlayerHit, rest: Seq<u8>) {
        let e1 = <u8 as NetworkAdapter>::enc_model(m.bullet_id);
        let e2 = <u32 as NetworkAdapter>::enc_model(m.object_id);
        let p1 = e1;
        let p2 = p1 + e2;
        assert(Self::enc_model(m) == p2);
        let r2 = rest;
        let r1 = e2 + r2;
        let b = Self::enc_model(m) + rest;
        lemma_seq_assoc(p1, e2, r2);
        assert(p2 + r2 == p1 + r1);
        assert(b == e1 + r1);
        <u8 as NetworkAdapter>::lemma_dec_enc(m.bullet_id, r1);
        <u32 as NetworkAdapter>::lemma_dec_enc(m.object_id, r2);
        let c1 = b.skip(e1.len() as int);
        lemma_skip_concat(e1, r1);
        assert(c1 == r1);
        assert(Self::enc_model(m).len() == e1.len() + e2.len());
        assert(PlayerHit { bullet_id: m.bullet_id, object_id: m.object_id } =~= m);
    }

    proof fn lemma_enc_dec(b: Seq<u8>, m: PlayerHit, n: int) {
        let (g1, n1) = <u8 as NetworkAdapter>::dec(b)->Ok_0;
        <u8 as NetworkAdapter>::lemma_enc_dec(b, g1, n1);
        let b1 = b.skip(n1);
        let (g2, n2) = <u32 as NetworkAdapter>::dec(b1)->Ok_0;
        <u32 as NetworkAdapter>::lemma_enc_dec(b1, g2, n2);
        assert(n == n1 + n2);
        assert(m.bullet_id == g1);
        assert(m.object_id == g2);
        if Self::canon(b) {
            let s1 = n1;
            let s2 = s1 + n2;
            let q1 = <u8 as NetworkAdapter>::enc_model(m.bullet_id);
            assert(q1 == b.take(s1));
            lemma_take_concat(b, s1, n2);
            let q2 = q1 + <u32 as NetworkAdapter>::enc_model(m.object_id);
            assert(q2 == b.take(s2));
            assert(Self::enc_model(m) == q2);
            assert(Self::enc_model(m) == b.take(n));
        }
    }
}

#[verifier::ext_equal]
#[derive(Debug, PartialEq, Clone)]
pub struct PlayerShoot {
    pub time: u32,
    pub bullet_id: u8,
    pub container_type: u16,
    pub starting_pos: WorldPosData,
    pub angle: F32Bits,
}

impl NetworkAdapter for PlayerShoot {
    type Model = PlayerShoot;

    open spec fn model(self) -> PlayerShoot {
        self
    }

    open spec fn enc_model(m: PlayerShoot) -> Seq<u8> {
        <u32 as NetworkAdapter>::enc_model(m.time) + <u8 as NetworkAdapter>::enc_model(m.bullet_id) + <u16 as NetworkAdapter>::enc_model(m.container_type) + <WorldPosData as NetworkAdapter>::enc_model(m.starting_pos) + <F32Bits as NetworkAdapter>::enc_model(m.angle)
    }

    open spec fn valid_model(m: PlayerShoot) -> bool {
        <u32 as NetworkAdapter>::valid_model(m.time) && <u8 as NetworkAdapter>::valid_model(m.bullet_id) && <u16 as NetworkAdapter>::valid_model(m.container_type) && <WorldPosData as NetworkAdapter>::valid_model(m.starting_pos) && <F32Bits as NetworkAdapter>::valid_model(m.angle)
    }

    closed spec fn dec(b: Seq<u8>) -> Result<(PlayerShoot, int), Error> {
        match <u32 as NetworkAdapter>::dec(b) {
            Ok((g1, n1)) => {
                let b1 = b.skip(n1);
                match <u8 as NetworkAdapter>::dec(b1) {
                    Ok((g2, n2)) => {
                        let b2 = b1.skip(n2);
                        match <u16 as NetworkAdapter>::dec(b2) {
                            Ok((g3, n3)) => {
                                let b3 = b2.skip(n3);
                                match <WorldPosData as NetworkAdapter>::dec(b3) {
                                    Ok((g4, n4)) => {
                                        let b4 = b3.skip(n4);
                                        match <F32Bits as NetworkAdapter>::dec(b4) {
                                            Ok((g5, n5)) => {
                                                Ok((PlayerShoot { time: g1, bullet_id: g2, container_type: g3, starting_pos: g4, angle: g5 }, n1 + n2 + n3 + n4 + n5))
                                            },
                                            Err(e) => Err(e),
                                        }
                                    },
                                    Err(e) => Err(e),
                                }
                            },
                            Err(e) => Err(e),
                        }
                    },
                    Err(e) => Err(e),
                }
            },
            Err(e) => Err(e),
        }
    }

    closed spec fn canon(b: Seq<u8>) -> bool {
        match <u32 as NetworkAdapter>::dec(b) {
            Ok((g1, n1)) => <u32 as NetworkAdapter>::canon(b) && {
                let b1 = b.skip(n1);
                match <u8 as NetworkAdapter>::dec(b1) {
                    Ok((g2, n2)) => <u8 as NetworkAdapter>::canon(b1) && {
                        let b2 = b1.skip(n2);
                        match <u16 as NetworkAdapter>::dec(b2) {
                            Ok((g3, n3)) => <u16 as NetworkAdapter>::canon(b2) && {
                                let b3 = b2.skip(n3);
                                match <WorldPosData as NetworkAdapter>::dec(b3) {
                                    Ok((g4, n4)) => <WorldPosData as NetworkAdapter>::canon(b3) && {
                                        let b4 = b3.skip(n4);
                                        match <F32Bits as NetworkAdapter>::dec(b4) {
                                            Ok((g5, n5)) => <F32Bits as NetworkAdapter>::canon(b4) && {
                                                true
                                            },
                                            Err(e) => true,
                                        }
                                    },
                                    Err(e) => true,
                                }
                            },
                            Err(e) => true,
                        }
                    },
                    Err(e) => true,
                }
            },
            Err(e) => true,
        }
    }

    #[verifier::rlimit(100)]
    #[verifier::spinoff_prover]
    fn get_be(r: &mut Reader) -> (res: Result<PlayerShoot, Error>) {
        let ghost b = old(r).remaining_bytes();
        let save = r.position();
        let x1 = match <u32 as NetworkAdapter>::get_be(r) {
            Ok(v) => v,
            Err(e) => {
                r.seek(save);
                return Err(e);
            },
        };
        let x2 = match <u8 as NetworkAdapter>::get_be(r) {
            Ok(v) => v,
            Err(e) => {
                r.seek(save);
                return Err(e);
            },
        };
        let x3 = match <u16 as NetworkAdapter>::get_be(r) {
            Ok(v) => v,
            Err(e) => {
                r.seek(save);
                return Err(e);
            },
        };
        let x4 = match <WorldPosData as NetworkAdapter>::get_be(r) {
            Ok(v) => v,
            Err(e) => {
                r.seek(save);
                return Err(e);
            },
        };
        let x5 = match <F32Bits as NetworkAdapter>::get_be(r) {
            Ok(v) => v,
            Err(e) => {
                r.seek(save);
                return Err(e);
            },
        };
        proof {
            let (g1, n1) = <u32 as NetworkAdapter>::dec(b)->Ok_0;
            let b1 = b.skip(n1);
            let (g2, n2) = <u8 as NetworkAdapter>::dec(b1)->Ok_0;
            let b2 = b1.skip(n2);
            let (g3, n3) = <u16 as NetworkAdapter>::dec(b2)->Ok_0;
            let b3 = b2.skip(n3);
            let (g4, n4) = <WorldPosData as NetworkAdapter>::dec(b3)->Ok_0;
            let b4 = b3.skip(n4);
            let (g5, n5) = <F32Bits as NetworkAdapter>::dec(b4)->Ok_0;
            lemma_skip_skip(b, n1, n2);
            assert(b2 == b.skip(n1 + n2));
            lemma_skip_skip(b, n1 + n2, n3);
            assert(b3 == b.skip(n1 + n2 + n3));
            lemma_skip_skip(b, n1 + n2 + n3, n4);
            assert(b4 == b.skip(n1 + n2 + n3 + n4));
            lemma_skip_skip(b, n1 + n2 + n3 + n4, n5);
            assert(b4.skip(n5) == b.skip(n1 + n2 + n3 + n4 + n5));
        }
        Ok(PlayerShoot { time: x1, bullet_id: x2, container_type: x3, starting_pos: x4, angle: x5 })
    }

    #[verifier::rlimit(100)]
    #[verifier::spinoff_prover]
    fn put_be(self, out: &mut Vec<u8>) -> (res: Result<(), Error>) {
        let ghost m = self.model();
        let PlayerShoot { time, bullet_id, container_type, starting_pos, angle } = self;
        let ghost e1 = <u32 as NetworkAdapter>::enc_model(m.time);
        let ghost e2 = <u8 as NetworkAdapter>::enc_model(m.bullet_id);
        let ghost e3 = <u16 as NetworkAdapter>::enc_model(m.container_type);
        let ghost e4 = <WorldPosData as NetworkAdapter>::enc_model(m.starting_pos);
        let ghost e5 = <F32Bits as NetworkAdapter>::enc_model(m.angle);
        let ghost p1 = e1;
        let ghost p2 = p1 + e2;
        let ghost p3 = p2 + e3;
        let ghost p4 = p3 + e4;
        let ghost p5 = p4 + e5;
        let mut tmp: Vec<u8> = Vec::new();
        let ghost o0 = tmp@;
        match time.put_be(&mut tmp) {
            Ok(()) => {},
            Err(e) => {
                return Err(e);
            },
        };
        let ghost o1 = tmp@;
        proof {
            assert(time == m.time);
            assert(o1 == o0 + p1);
        }
        match bullet_id.put_be(&mut tmp) {
            Ok(()) => {},
            Err(e) => {
                return Err(e);
            },
        };
        let ghost o2 = tmp@;
        proof {
            assert(bullet_id == m.bullet_id);
            lemma_seq_assoc(o0, p1, e2);
            assert(o2 == o0 + p2);
        }
        match container_type.put_be(&mut tmp) {
            Ok(()) => {},
            Err(e) => {
                return Err(e);
            },
        };
        let ghost o3 = tmp@;
        proof {
            assert(container_type == m.container_type);
            lemma_seq_assoc(o0, p2, e3);
            assert(o3 == o0 + p3);
        }
        match starting_pos.put_be(&mut tmp) {
            Ok(()) => {},
            Err(e) => {
                return Err(e);
            },
        };
        let ghost o4 = tmp@;
        proof {
            assert(starting_pos == m.starting_pos);
            lemma_seq_assoc(o0, p3, e4);
            assert(o4 == o0 + p4);
        }
        match angle.put_be(&mut tmp) {
            Ok(()) => {},
            Err(e) => {
                return Err(e);
            },
        };
        let ghost o5 = tmp@;
        proof {
            assert(angle == m.angle);
            lemma_seq_assoc(o0, p4, e5);
            assert(o5 == o0 + p5);
        }
        out.append(&mut tmp);
        proof {
            assert(Self::enc_model(m) == p5);
            assert(o0 + p5 =~= p5);
            assert(out@ == old(out)@ + Self::enc_model(m));
        }
        Ok(())
    }

    #[verifier::rlimit(100)]
    #[verifier::spinoff_prover]
    proof fn lemma_dec_enc(m: PlayerShoot, rest: Seq<u8>) {
        let e1 = <u32 as NetworkAdapter>::enc_model(m.time);
        let e2 = <u8 as NetworkAdapter>::enc_model(m.bullet_id);
        let e3 = <u16 as NetworkAdapter>::enc_model(m.container_type);
        let e4 = <WorldPosData as NetworkAdapter>::enc_model(m.starting_pos);
        let e5 = <F32Bits as NetworkAdapter>::enc_model(m.angle);
        let p1 = e1;
        let p2 = p1 + e2;
        let p3 = p2 + e3;
        let p4 = p3 + e4;
        let p5 = p4 + e5;
        assert(Self::enc_model(m) == p5);
        let r5 = rest;
        let r4 = e5 + r5;
        let r3 = e4 + r4;
        let r2 = e3 + r3;
        let r1 = e2 + r2;
        let b = Self::enc_model(m) + rest;
        lemma_seq_assoc(p4, e5, r5);
        assert(p5 + r5 == p4 + r4);
        lemma_seq_assoc(p3, e4, r4);
        assert(p4 + r4 == p3 + r3);
        lemma_seq_assoc(p2, e3, r3);
        assert(p3 + r3 == p2 + r2);
        lemma_seq_assoc(p1, e2, r2);
        assert(p2 + r2 == p1 + r1);
        assert(b == e1 + r1);
        <u32 as NetworkAdapter>::lemma_dec_enc(m.time, r1);
        <u8 as NetworkAdapter>::lemma_dec_enc(m.bullet_id, r2);
        <u16 as NetworkAdapter>::lemma_dec_enc(m.container_type, r3);
        <WorldPosData as NetworkAdapter>::lemma_dec_enc(m.starting_pos, r4);
        <F32Bits as NetworkAdapter>::lemma_dec_enc(m.angle, r5);
        let c1 = b.skip(e1.len() as int);
        lemma_skip_concat(e1, r1);
        assert(c1 == r1);
        let c2 = c1.skip(e2.len() as int);
        lemma_skip_concat(e2, r2);
        assert(c2 == r2);
        let c3 = c2.skip(e3.len() as int);
        lemma_skip_concat(e3, r3);
        assert(c3 == r3);
        let c4 = c3.skip(e4.len() as int);
        lemma_skip_concat(e4, r4);
        assert(c4 == r4);
        assert(Self::enc_model(m).len() == e1.len() + e2.len() + e3.len() + e4.len() + e5.len());
        assert(PlayerShoot { time: m.time, bullet_id: m.bullet_id, container_type: m.container_type, starting_pos: m.starting_pos, angle: m.angle } =~= m);
    }

    #[verifier::rlimit(100)]
    #[verifier::spinoff_prover]
    proof fn lemma_enc_dec(b: Seq<u8>, m: PlayerShoot, n: int) {
        let (g1, n1) = <u32 as NetworkAdapter>::dec(b)->Ok_0;
        <u32 as NetworkAdapter>::lemma_enc_dec(b, g1, n1);
        let b1 = b.skip(n1);
        let (g2, n2) = <u8 as NetworkAdapter>::dec(b1)->Ok_0;
        <u8 as NetworkAdapter>::lemma_enc_dec(b1, g2, n2);
        let b2 = b1.skip(n2);
        let (g3, n3) = <u16 as NetworkAdapter>::dec(b2)->Ok_0;
        <u16 as NetworkAdapter>::lemma_enc_dec(b2, g3, n3);
        let b3 = b2.skip(n3);
        let (g4, n4) = <WorldPosData as NetworkAdapter>::dec(b3)->Ok_0;
        <WorldPosData as NetworkAdapter>::lemma_enc_dec(b3, g4, n4);
        let b4 = b3.skip(n4);
        let (g5, n5) = <F32Bits as NetworkAdapter>::dec(b4)->Ok_0;
        <F32Bits as NetworkAdapter>::lemma_enc_dec(b4, g5, n5);
        lemma_skip_skip(b, n1, n2);
        assert(b2 == b.skip(n1 + n2));
        lemma_skip_skip(b, n1 + n2, n3);
        assert(b3 == b.skip(n1 + n2 + n3));
        lemma_skip_skip(b, n1 + n2 + n3, n4);
        assert(b4 == b.skip(n1 + n2 + n3 + n4));
        assert(n == n1 + n2 + n3 + n4 + n5);
        assert(m.time == g1);
        assert(m.bullet_id == g2);
        assert(m.container_type == g3);
        assert(m.starting_pos == g4);
        assert(m.angle == g5);
        if Self::canon(b) {
            let s1 = n1;
            let s2 = s1 + n2;
            let s3 = s2 + n3;
            let s4 = s3 + n4;
            let s5 = s4 + n5;
            let q1 = <u32 as NetworkAdapter>::enc_model(m.time);
            assert(q1 == b.take(s1));
            lemma_take_concat(b, s1, n2);
            let q2 = q1 + <u8 as NetworkAdapter>::enc_model(m.bullet_id);
            assert(q2 == b.take(s2));
            lemma_take_concat(b, s2, n3);
            let q3 = q2 + <u16 as NetworkAdapter>::enc_model(m.container_type);
            assert(q3 == b.take(s3));
            lemma_take_concat(b, s3, n4);
            let q4 = q3 + <WorldPosData as NetworkAdapter>::enc_model(m.starting_pos);
            assert(q4 == b.take(s4));
            lemma_take_concat(b, s4, n5);
            let q5 = q4 + <F32Bits as NetworkAdapter>::enc_model(m.angle);
            assert(q5 == b.take(s5));
            assert(Self::enc_model(m) == q5);
            assert(Self::enc_model(m) == b.take(n));
        }
    }
}

#[verifier::ext_equal]
#[derive(Debug, PartialEq, Clone)]
pub struct PlayerText {
    pub text: RLE<String, u16>,
}

/// The mathematical model of a decoded `PlayerText`.
#[verifier::ext_equal]
pub struct PlayerTextModel {
    pub text: Seq<char>,
}

impl NetworkAdapter for PlayerText {
    type Model = PlayerTextModel;

    open spec fn model(self) -> PlayerTextModel {
        PlayerTextModel {
            text: self.text.model(),
        }
    }

    open spec fn enc_model(m: PlayerTextModel) -> Seq<u8> {
        <RLE<String, u16> as NetworkAdapter>::enc_model(m.text)
    }

    open spec fn valid_model(m: PlayerTextModel) -> bool {
        <RLE<String, u16> as NetworkAdapter>::valid_model(m.text)
    }

    closed spec fn dec(b: Seq<u8>) -> Result<(PlayerTextModel, int), Error> {
        match <RLE<String, u16> as NetworkAdapter>::dec(b) {
            Ok((g1, n1)) => {
                Ok((PlayerTextModel { text: g1 }, n1))
            },
            Err(e) => Err(e),
        }
    }

    closed spec fn canon(b: Seq<u8>) -> bool {
        match <RLE<String, u16> as NetworkAdapter>::dec(b) {
            Ok((g1, n1)) => <RLE<String, u16> as NetworkAdapter>::canon(b) && {
                true
            },
            Err(e) => true,
        }
    }

    fn get_be(r: &mut Reader) -> (res: Result<PlayerText, Error>) {
        let ghost b = old(r).remaining_bytes();
        let save = r.position();
        let x1 = match <RLE<String, u16> as NetworkAdapter>::get_be(r) {
            Ok(v) => v,
            Err(e) => {
                r.seek(save);
                return Err(e);
            },
        };
        proof {
            let (g1, n1) = <RLE<String, u16> as NetworkAdapter>::dec(b)->Ok_0;
        }
        Ok(PlayerText { text: x1 })
    }

    fn put_be(self, out: &mut Vec<u8>) -> (res: Result<(), Error>) {
        let ghost m = self.model();
        let PlayerText { text } = self;
        let ghost e1 = <RLE<String, u16> as NetworkAdapter>::enc_model(m.text);
        let ghost p1 = e1;
        let mut tmp: Vec<u8> = Vec::new();
        let ghost o0 = tmp@;
        match text.put_be(&mut tmp) {
            Ok(()) => {},
            Err(e) => {
                return Err(e);
            },
        };
        let ghost o1 = tmp@;
        proof {
            assert(text.model() == m.text);
            assert(o1 == o0 + p1);
        }
        out.append(&mut tmp);
        proof {
            assert(Self::enc_model(m) == p1);
            assert(o0 + p1 =~= p1);
            assert(out@ == old(out)@ + Self::enc_model(m));
        }
        Ok(())
    }

    proof fn lemma_dec_enc(m: PlayerTextModel, rest: Seq<u8>) {
        let e1 = <RLE<String, u16> as NetworkAdapter>::enc_model(m.text);
        let p1 = e1;
        assert(Self::enc_model(m) == p1);
        let r1 = rest;
        let b = Self::enc_model(m) + rest;
        assert(b == e1 + r1);
        <RLE<String, u16> as NetworkAdapter>::lemma_dec_enc(m.text, r1);
        assert(Self::enc_model(m).len() == e1.len());
        assert(PlayerTextModel { text: m.text } =~= m);
    }

    proof fn lemma_enc_dec(b: Seq<u8>, m: PlayerTextModel, n: int) {
        let (g1, n1) = <RLE<String, u16> as NetworkAdapter>::dec(b)->Ok_0;
        <RLE<String, u16> as NetworkAdapter>::lemma_enc_dec(b, g1, n1);
        assert(n == n1);
        assert(m.text == g1);
        if Self::canon(b) {
            let s1 = n1;
            let q1 = <RLE<String, u16> as NetworkAdapter>::enc_model(m.text);
            assert(q1 == b.take(s1));
            assert(Self::enc_model(m) == q1);
            assert(Self::enc_model(m) == b.take(n));
        }
    }
}

#[verifier::ext_equal]
#[derive(Debug, PartialEq, Clone)]
pub struct QuestRedeem {
    pub quest_id: RLE<String, u16>,
    pub item: u32,
    pub slots: RLE<Vec<SlotObjectData>, u16>,
}

/// The mathematical model of a decoded `QuestRedeem`.
#[verifier::ext_equal]
pub struct QuestRedeemModel {
    pub quest_id: Seq<char>,
    pub item: u32,
    pub slots: Seq<SlotObjectData>,
}

impl NetworkAdapter for QuestRedeem {
    type Model = QuestRedeemModel;

    open spec fn model(self) -> QuestRedeemModel {
        QuestRedeemModel {
            quest_id: self.quest_id.model(),
            item: self.item.model(),
            slots: self.slots.model(),
        }
    }

    open spec fn enc_model(m: QuestRedeemModel) -> Seq<u8> {
        <RLE<String, u16> as NetworkAdapter>::enc_model(m.quest_id) + <u32 as NetworkAdapter>::enc_model(m.item) + <RLE<Vec<SlotObjectData>, u16> as NetworkAdapter>::enc_model(m.slots)
    }

    open spec fn valid_model(m: QuestRedeemModel) -> bool {
        <RLE<String, u16> as NetworkAdapter>::valid_model(m.quest_id) && <u32 as NetworkAdapter>::valid_model(m.item) && <RLE<Vec<SlotObjectData>, u16> as NetworkAdapter>::valid_model(m.slots)
    }

    closed spec fn dec(b: Seq<u8>) -> Result<(QuestRedeemModel, int), Error> {
        match <RLE<String, u16> as NetworkAdapter>::dec(b) {
            Ok((g1, n1)) => {
                let b1 = b.skip(n1);
                match <u32 as NetworkAdapter>::dec(b1) {
                    Ok((g2, n2)) => {
                        let b2 = b1.skip(n2);
                        match <RLE<Vec<SlotObjectData>, u16> as NetworkAdapter>::dec(b2) {
                            Ok((g3, n3)) => {
                                Ok((QuestRedeemModel { quest_id: g1, item: g2, slots: g3 }, n1 + n2 + n3))
                            },
                            Err(e) => Err(e),
                        }
                    },
                    Err(e) => Err(e),
                }
            },
            Err(e) => Err(e),
        }
    }

    closed spec fn canon(b: Seq<u8>) -> bool {
        match <RLE<String, u16> as NetworkAdapter>::dec(b) {
            Ok((g1, n1)) => <RLE<String, u16> as NetworkAdapter>::canon(b) && {
                let b1 = b.skip(n1);
                match <u32 as NetworkAdapter>::dec(b1) {
                    Ok((g2, n2)) => <u32 as NetworkAdapter>::canon(b1) && {
                        let b2 = b1.skip(n2);
                        match <RLE<Vec<SlotObjectData>, u16> as NetworkAdapter>::dec(b2) {
                            Ok((g3, n3)) => <RLE<Vec<SlotObjectData>, u16> as NetworkAdapter>::canon(b2) && {
                                true
                            },
                            Err(e) => true,
                        }
                    },
                    Err(e) => true,
                }
            },
            Err(e) => true,
        }
    }

    fn get_be(r: &mut Reader) -> (res: Result<QuestRedeem, Error>) {
        let ghost b = old(r).remaining_bytes();
        let save = r.position();
        let x1 = match <RLE<String, u16> as NetworkAdapter>::get_be(r) {
            Ok(v) => v,
            Err(e) => {
                r.seek(save);
                return Err(e);
            },
        };
        let x2 = match <u32 as NetworkAdapter>::get_be(r) {
            Ok(v) => v,
            Err(e) => {
                r.seek(save);
                return Err(e);
            },
        };
        let x3 = match <RLE<Vec<SlotObjectData>, u16> as NetworkAdapter>::get_be(r) {
            Ok(v) => v,
            Err(e) => {
                r.seek(save);
                return Err(e);
            },
        };
        proof {
            let (g1, n1) = <RLE<String, u16> as NetworkAdapter>::dec(b)->Ok_0;
            let b1 = b.skip(n1);
            let (g2, n2) = <u32 as NetworkAdapter>::dec(b1)->Ok_0;
            let b2 = b1.skip(n2);
            let (g3, n3) = <RLE<Vec<SlotObjectData>, u16> as NetworkAdapter>::dec(b2)->Ok_0;
            lemma_skip_skip(b, n1, n2);
            assert(b2 == b.skip(n1 + n2));
            lemma_skip_skip(b, n1 + n2, n3);
            assert(b2.skip(n3) == b.skip(n1 + n2 + n3));
        }
        Ok(QuestRedeem { quest_id: x1, item: x2, slots: x3 })
    }

    fn put_be(self, out: &mut Vec<u8>) -> (res: Result<(), Error>) {
        let ghost m = self.model();
        let QuestRedeem { quest_id, item, slots } = self;
        let ghost e1 = <RLE<String, u16> as NetworkAdapter>::enc_model(m.quest_id);
        let ghost e2 = <u32 as NetworkAdapter>::enc_model(m.item);
        let ghost e3 = <RLE<Vec<SlotObjectData>, u16> as NetworkAdapter>::enc_model(m.slots);
        let ghost p1 = e1;
        let ghost p2 = p1 + e2;
        let ghost p3 = p2 + e3;
        let mut tmp: Vec<u8> = Vec::new();
        let ghost o0 = tmp@;
        match quest_id.put_be(&mut tmp) {
            Ok(()) => {},
            Err(e) => {
                return Err(e);
            },
        };
        let ghost o1 = tmp@;
        proof {
            assert(quest_id.model() == m.quest_id);
            assert(o1 == o0 + p1);
        }
        match item.put_be(&mut tmp) {
            Ok(()) => {},
            Err(e) => {
                return Err(e);
            },
        };
        let ghost o2 = tmp@;
        proof {
            assert(item.model() == m.item);
            lemma_seq_assoc(o0, p1, e2);
            assert(o2 == o0 + p2);
        }
        match slots.put_be(&mut tmp) {
            Ok(()) => {},
            Err(e) => {
                return Err(e);
            },
        };
        let ghost o3 = tmp@;
        proof {
            assert(slots.model() == m.slots);
            lemma_seq_assoc(o0, p2, e3);
            assert(o3 == o0 + p3);
        }
        out.append(&mut tmp);
        proof {
            assert(Self::enc_model(m) == p3);
            assert(o0 + p3 =~= p3);
            assert(out@ == old(out)@ + Self::enc_model(m));
        }
        Ok(())
    }

    proof fn lemma_dec_enc(m: QuestRedeemModel, rest: Seq<u8>) {
        let e1 = <RLE<String, u16> as NetworkAdapter>::enc_model(m.quest_id);
        let e2 = <u32 as NetworkAdapter>::enc_model(m.item);
        let e3 = <RLE<Vec<SlotObjectData>, u16> as NetworkAdapter>::enc_model(m.slots);
        let p1 = e1;
        let p2 = p1 + e2;
        let p3 = p2 + e3;
        assert(Self::enc_model(m) == p3);
        let r3 = rest;
        let r2 = e3 + r3;
        let r1 = e2 + r2;
        let b = Self::enc_model(m) + rest;
        lemma_seq_assoc(p2, e3, r3);
        assert(p3 + r3 == p2 + r2);
        lemma_seq_assoc(p1, e2, r2);
        assert(p2 + r2 == p1 + r1);
        assert(b == e1 + r1);
        <RLE<String, u16> as NetworkAdapter>::lemma_dec_enc(m.quest_id, r1);
        <u32 as NetworkAdapter>::lemma_dec_enc(m.item, r2);
        <RLE<Vec<SlotObjectData>, u16> as NetworkAdapter>::lemma_dec_enc(m.slots, r3);
        let c1 = b.skip(e1.len() as int);
        lemma_skip_concat(e1, r1);
        assert(c1 == r1);
        let c2 = c1.skip(e2.len() as int);
        lemma_skip_concat(e2, r2);
        assert(c2 == r2);
        assert(Self::enc_model(m).len() == e1.len() + e2.len() + e3.len());
        assert(QuestRedeemModel { quest_id: m.quest_id, item: m.item, slots: m.slots } =~= m);
    }

    proof fn lemma_enc_dec(b: Seq<u8>, m: QuestRedeemModel, n: int) {
        let (g1, n1) = <RLE<String, u16> as NetworkAdapter>::dec(b)->Ok_0;
        <RLE<String, u16> as NetworkAdapter>::lemma_enc_dec(b, g1, n1);
        let b1 = b.skip(n1);
        let (g2, n2) = <u32 as NetworkAdapter>::dec(b1)->Ok_0;
        <u32 as NetworkAdapter>::lemma_enc_dec(b1, g2, n2);
        let b2 = b1.skip(n2);
        let (g3, n3) = <RLE<Vec<SlotObjectData>, u16> as NetworkAdapter>::dec(b2)->Ok_0;
        <RLE<Vec<SlotObjectData>, u16> as NetworkAdapter>::lemma_enc_dec(b2, g3, n3);
        lemma_skip_skip(b, n1, n2);
        assert(b2 == b.skip(n1 + n2));
        assert(n == n1 + n2 + n3);
        assert(m.quest_id == g1);
        assert(m.item == g2);
        assert(m.slots == g3);
        if Self::canon(b) {
            let s1 = n1;
            let s2 = s1 + n2;
            let s3 = s2 + n3;
            let q1 = <RLE<String, u16> as NetworkAdapter>::enc_model(m.quest_id);
            assert(q1 == b.take(s1));
            lemma_take_concat(b, s1, n2);
            let q2 = q1 + <u32 as NetworkAdapter>::enc_model(m.item);
            assert(q2 == b.take(s2));
            lemma_take_concat(b, s2, n3);
            let q3 = q2 + <RLE<Vec<SlotObjectData>, u16> as NetworkAdapter>::enc_model(m.slots);
            assert(q3 == b.take(s3));
            assert(Self::enc_model(m) == q3);
            assert(Self::enc_model(m) == b.take(n));
        }
    }
}

#[verifier::ext_equal]
#[derive(Debug, PartialEq, Clone)]
pub struct QuestRoomMsg {
}

impl NetworkAdapter for QuestRoomMsg {
    type Model = QuestRoomMsg;

    open spec fn model(self) -> QuestRoomMsg {
        self
    }

    open spec fn enc_model(m: QuestRoomMsg) -> Seq<u8> {
        Seq::empty()
    }

    open spec fn valid_model(m: QuestRoomMsg) -> bool {
        true
    }

    closed spec fn dec(b: Seq<u8>) -> Result<(QuestRoomMsg, int), Error> {
        Ok((QuestRoomMsg {  }, 0))
    }

    closed spec fn canon(b: Seq<u8>) -> bool {
        true
    }

    fn get_be(r: &mut Reader) -> (res: Result<QuestRoomMsg, Error>) {
        let ghost b = old(r).remaining_bytes();
        proof {
            assert(b.skip(0) =~= b);
        }
        Ok(QuestRoomMsg {  })
    }

    fn put_be(self, out: &mut Vec<u8>) -> (res: Result<(), Error>) {
        let ghost m = self.model();
        let QuestRoomMsg {  } = self;
        let mut tmp: Vec<u8> = Vec::new();
        let ghost o0 = tmp@;
        out.append(&mut tmp);
        proof {
            assert(out@ =~= old(out)@ + Self::enc_model(m));
        }
        Ok(())
    }

    proof fn lemma_dec_enc(m: QuestRoomMsg, rest: Seq<u8>) {
        assert(m =~= QuestRoomMsg {  });
    }

    proof fn lemma_enc_dec(b: Seq<u8>, m: QuestRoomMsg, n: int) {
        assert(m =~= QuestRoomMsg {  });
        assert(Self::enc_model(m) =~= b.take(0));
    }
}

#[verifier::ext_equal]
#[derive(Debug, PartialEq, Clone)]
pub struct Pong {
    pub serial: u32,
    pub time: u32,
}

impl NetworkAdapter for Pong {
    type Model = Pong;

    open spec fn model(self) -> Pong {
        self
    }

    open spec fn enc_model(m: Pong) -> Seq<u8> {
        <u32 as NetworkAdapter>::enc_model(m.serial) + <u32 as NetworkAdapter>::enc_model(m.time)
    }

    open spec fn valid_model(m: Pong) -> bool {
        <u32 as NetworkAdapter>::valid_model(m.serial) && <u32 as NetworkAdapter>::valid_model(m.time)
    }

    closed spec fn dec(b: Seq<u8>) -> Result<(Pong, int), Error> {
        match <u32 as NetworkAdapter>::dec(b) {
            Ok((g1, n1)) => {
                let b1 = b.skip(n1);
                match <u32 as NetworkAdapter>::dec(b1) {
                    Ok((g2, n2)) => {
                        Ok((Pong { serial: g1, time: g2 }, n1 + n2))
                    },
                    Err(e) => Err(e),
                }
            },
            Err(e) => Err(e),
        }
    }

    closed spec fn canon(b: Seq<u8>) -> bool {
        match <u32 as NetworkAdapter>::dec(b) {
            Ok((g1, n1)) => <u32 as NetworkAdapter>::canon(b) && {
                let b1 = b.skip(n1);
                match <u32 as NetworkAdapter>::dec(b1) {
                    Ok((g2, n2)) => <u32 as NetworkAdapter>::canon(b1) && {
                        true
                    },
                    Err(e) => true,
                }
            },
            Err(e) => true,
        }
    }

    fn get_be(r: &mut Reader) -> (res: Result<Pong, Error>) {
        let ghost b = old(r).remaining_bytes();
        let save = r.position();
        let x1 = match <u32 as NetworkAdapter>::get_be(r) {
            Ok(v) => v,
            Err(e) => {
                r.seek(save);
                return Err(e);
            },
        };
        let x2 = match <u32 as NetworkAdapter>::get_be(r) {
            Ok(v) => v,
            Err(e) => {
                r.seek(save);
                return Err(e);
            },
        };
        proof {
            let (g1, n1) = <u32 as NetworkAdapter>::dec(b)->Ok_0;
            let b1 = b.skip(n1);
            let (g2, n2) = <u32 as NetworkAdapter>::dec(b1)->Ok_0;
            lemma_skip_skip(b, n1, n2);
            assert(b1.skip(n2) == b.skip(n1 + n2));
        }
        Ok(Pong { serial: x1, time: x2 })
    }

    fn put_be(self, out: &mut Vec<u8>) -> (res: Result<(), Error>) {
        let ghost m = self.model();
        let Pong { serial, time } = self;
        let ghost e1 = <u32 as NetworkAdapter>::enc_model(m.serial);
        let ghost e2 = <u32 as NetworkAdapter>::enc_model(m.time);
        let ghost p1 = e1;
        let ghost p2 = p1 + e2;
        let mut tmp: Vec<u8> = Vec::new();
        let ghost o0 = tmp@;
        match serial.put_be(&mut tmp) {
            Ok(()) => {},
            Err(e) => {
                return Err(e);
            },
        };
        let ghost o1 = tmp@;
        proof {
            assert(serial == m.serial);
            assert(o1 == o0 + p1);
        }
        match time.put_be(&mut tmp) {
            Ok(()) => {},
            Err(e) => {
                return Err(e);
            },
        };
        let ghost o2 = tmp@;
        proof {
            assert(time == m.time);
            lemma_seq_assoc(o0, p1, e2);
            assert(o2 == o0 + p2);
        }
        out.append(&mut tmp);
        proof {
            assert(Self::enc_model(m) == p2);
            assert(o0 + p2 =~= p2);
            assert(out@ == old(out)@ + Self::enc_model(m));
        }
        Ok(())
    }

    proof fn lemma_dec_enc(m: Pong, rest: Seq<u8>) {
        let e1 = <u32 as NetworkAdapter>::enc_model(m.serial);
        let e2 = <u32 as NetworkAdapter>::enc_model(m.time);
        let p1 = e1;
        let p2 = p1 + e2;
        assert(Self::enc_model(m) == p2);
        let r2 = rest;
        let r1 = e2 + r2;
        let b = Self::enc_model(m) + rest;
        lemma_seq_assoc(p1, e2, r2);
        assert(p2 + r2 == p1 + r1);
        assert(b == e1 + r1);
        <u32 as NetworkAdapter>::lemma_dec_enc(m.serial, r1);
        <u32 as NetworkAdapter>::lemma_dec_enc(m.time, r2);
        let c1 = b.skip(e1.len() as int);
        lemma_skip_concat(e1, r1);
        assert(c1 == r1);
        assert(Self::enc_model(m).len() == e1.len() + e2.len());
        assert(Pong { serial: m.serial, time: m.time } =~= m);
    }

    proof fn lemma_enc_dec(b: Seq<u8>, m: Pong, n: int) {
        let (g1, n1) = <u32 as NetworkAdapter>::dec(b)->Ok_0;
        <u32 as NetworkAdapter>::lemma_enc_dec(b, g1, n1);
        let b1 = b.skip(n1);
        let (g2, n2) = <u32 as NetworkAdapter>::dec(b1)->Ok_0;
        <u32 as NetworkAdapter>::lemma_enc_dec(b1, g2, n2);
        assert(n == n1 + n2);
        assert(m.serial == g1);
        assert(m.time == g2);
        if Self::canon(b) {
            let s1 = n1;
            let s2 = s1 + n2;
            let q1 = <u32 as NetworkAdapter>::enc_model(m.serial);
            assert(q1 == b.take(s1));
            lemma_take_concat(b, s1, n2);
            let q2 = q1 + <u32 as NetworkAdapter>::enc_model(m.time);
            assert(q2 == b.take(s2));
            assert(Self::enc_model(m) == q2);
            assert(Self::enc_model(m) == b.take(n));
        }
    }
}

#[verifier::ext_equal]
#[derive(Debug, PartialEq, Clone)]
pub struct RequestTrade {
    pub name: RLE<String, u16>,
}

/// The mathematical model of a decoded `RequestTrade`.
#[verifier::ext_equal]
pub struct RequestTradeModel {
    pub name: Seq<char>,
}

impl NetworkAdapter for RequestTrade {
    type Model = RequestTradeModel;

    open spec fn model(self) -> RequestTradeModel {
        RequestTradeModel {
            name: self.name.model(),
        }
    }

    open spec fn enc_model(m: RequestTradeModel) -> Seq<u8> {
        <RLE<String, u16> as NetworkAdapter>::enc_model(m.name)
    }

    open spec fn valid_model(m: RequestTradeModel) -> bool {
        <RLE<String, u16> as NetworkAdapter>::valid_model(m.name)
    }

    closed spec fn dec(b: Seq<u8>) -> Result<(RequestTradeModel, int), Error> {
        match <RLE<String, u16> as NetworkAdapter>::dec(b) {
            Ok((g1, n1)) => {
                Ok((RequestTradeModel { name: g1 }, n1))
            },
            Err(e) => Err(e),
        }
    }

    closed spec fn canon(b: Seq<u8>) -> bool {
        match <RLE<String, u16> as NetworkAdapter>::dec(b) {
            Ok((g1, n1)) => <RLE<String, u16> as NetworkAdapter>::canon(b) && {
                true
            },
            Err(e) => true,
        }
    }

    fn get_be(r: &mut Reader) -> (res: Result<RequestTrade, Error>) {
        let ghost b = old(r).remaining_bytes();
        let save = r.position();
        let x1 = match <RLE<String, u16> as NetworkAdapter>::get_be(r) {
            Ok(v) => v,
            Err(e) => {
                r.seek(save);
                return Err(e);
            },
        };
        proof {
            let (g1, n1) = <RLE<String, u16> as NetworkAdapter>::dec(b)->Ok_0;
        }
        Ok(RequestTrade { name: x1 })
    }

    fn put_be(self, out: &mut Vec<u8>) -> (res: Result<(), Error>) {
        let ghost m = self.model();
        let RequestTrade { name } = self;
        let ghost e1 = <RLE<String, u16> as NetworkAdapter>::enc_model(m.name);
        let ghost p1 = e1;
        let mut tmp: Vec<u8> = Vec::new();
        let ghost o0 = tmp@;
        match name.put_be(&mut tmp) {
            Ok(()) => {},
            Err(e) => {
                return Err(e);
            },
        };
        let ghost o1 = tmp@;
        proof {
            assert(name.model() == m.name);
            assert(o1 == o0 + p1);
        }
        out.append(&mut tmp);
        proof {
            assert(Self::enc_model(m) == p1);
            assert(o0 + p1 =~= p1);
            assert(out@ == old(out)@ + Self::enc_model(m));
        }
        Ok(())
    }

    proof fn lemma_dec_enc(m: RequestTradeModel, rest: Seq<u8>) {
        let e1 = <RLE<String, u16> as NetworkAdapter>::enc_model(m.name);
        let p1 = e1;
        assert(Self::enc_model(m) == p1);
        let r1 = rest;
        let b = Self::enc_model(m) + rest;
        assert(b == e1 + r1);
        <RLE<String, u16> as NetworkAdapter>::lemma_dec_enc(m.name, r1);
        assert(Self::enc_model(m).len() == e1.len());
        assert(RequestTradeModel { name: m.name } =~= m);
    }

    proof fn lemma_enc_dec(b: Seq<u8>, m: RequestTradeModel, n: int) {
        let (g1, n1) = <RLE<String, u16> as NetworkAdapter>::dec(b)->Ok_0;
        <RLE<String, u16> as NetworkAdapter>::lemma_enc_dec(b, g1, n1);
        assert(n == n1);
        assert(m.name == g1);
        if Self::canon(b) {
            let s1 = n1;
            let q1 = <RLE<String, u16> as NetworkAdapter>::enc_model(m.name);
            assert(q1 == b.take(s1));
            assert(Self::enc_model(m) == q1);
            assert(Self::enc_model(m) == b.take(n));
        }
    }
}

#[verifier::ext_equal]
#[derive(Debug, PartialEq, Clone)]
pub struct ResetDailyQuests {
}

impl NetworkAdapter for ResetDailyQuests {
    type Model = ResetDailyQuests;

    open spec fn model(self) -> ResetDailyQuests {
        self
    }

    open spec fn enc_model(m: ResetDailyQuests) -> Seq<u8> {
        Seq::empty()
    }

    open spec fn valid_model(m: ResetDailyQuests) -> bool {
        true
    }

    closed spec fn dec(b: Seq<u8>) -> Result<(ResetDailyQuests, int), Error> {
        Ok((ResetDailyQuests {  }, 0))
    }

    closed spec fn canon(b: Seq<u8>) -> bool {
        true
    }

    fn get_be(r: &mut Reader) -> (res: Result<ResetDailyQuests, Error>) {
        let ghost b = old(r).remaining_bytes();
        proof {
            assert(b.skip(0) =~= b);
        }
        Ok(ResetDailyQuests {  })
    }

    fn put_be(self, out: &mut Vec<u8>) -> (res: Result<(), Error>) {
        let ghost m = self.model();
        let ResetDailyQuests {  } = self;
        let mut tmp: Vec<u8> = Vec::new();
        let ghost o0 = tmp@;
        out.append(&mut tmp);
        proof {
            assert(out@ =~= old(out)@ + Self::enc_model(m));
        }
        Ok(())
    }

    proof fn lemma_dec_enc(m: ResetDailyQuests, rest: Seq<u8>) {
        assert(m =~= ResetDailyQuests {  });
    }

    proof fn lemma_enc_dec(b: Seq<u8>, m: ResetDailyQuests, n: int) {
        assert(m =~= ResetDailyQuests {  });
        assert(Self::enc_model(m) =~= b.take(0));
    }
}

#[verifier::ext_equal]
#[derive(Debug, PartialEq, Clone)]
pub struct Reskin {
    pub skin_id: u32,
}

impl NetworkAdapter for Reskin {
    type Model = Reskin;

    open spec fn model(self) -> Reskin {
        self
    }

    open spec fn enc_model(m: Reskin) -> Seq<u8> {
        <u32 as NetworkAdapter>::enc_model(m.skin_id)
    }

    open spec fn valid_model(m: Reskin) -> bool {
        <u32 as NetworkAdapter>::valid_model(m.skin_id)
    }

    closed spec fn dec(b: Seq<u8>) -> Result<(Reskin, int), Error> {
        match <u32 as NetworkAdapter>::dec(b) {
            Ok((g1, n1)) => {
                Ok((Reskin { skin_id: g1 }, n1))
            },
            Err(e) => Err(e),
        }
    }

    closed spec fn canon(b: Seq<u8>) -> bool {
        match <u32 as NetworkAdapter>::dec(b) {
            Ok((g1, n1)) => <u32 as NetworkAdapter>::canon(b) && {
                true
            },
            Err(e) => true,
        }
    }

    fn get_be(r: &mut Reader) -> (res: Result<Reskin, Error>) {
        let ghost b = old(r).remaining_bytes();
        let save = r.position();
        let x1 = match <u32 as NetworkAdapter>::get_be(r) {
            Ok(v) => v,
            Err(e) => {
                r.seek(save);
                return Err(e);
            },
        };
        proof {
            let (g1, n1) = <u32 as NetworkAdapter>::dec(b)->Ok_0;
        }
        Ok(Reskin { skin_id: x1 })
    }

    fn put_be(self, out: &mut Vec<u8>) -> (res: Result<(), Error>) {
        let ghost m = self.model();
        let Reskin { skin_id } = self;
        let ghost e1 = <u32 as NetworkAdapter>::enc_model(m.skin_id);
        let ghost p1 = e1;
        let mut tmp: Vec<u8> = Vec::new();
        let ghost o0 = tmp@;
        match skin_id.put_be(&mut tmp) {
            Ok(()) => {},
            Err(e) => {
                return Err(e);
            },
        };
        let ghost o1 = tmp@;
        proof {
            assert(skin_id == m.skin_id);
            assert(o1 == o0 + p1);
        }
        out.append(&mut tmp);
        proof {
            assert(Self::enc_model(m) == p1);
            assert(o0 + p1 =~= p1);
            assert(out@ == old(out)@ + Self::enc_model(m));
        }
        Ok(())
    }

    proof fn lemma_dec_enc(m: Reskin, rest: Seq<u8>) {
        let e1 = <u32 as NetworkAdapter>::enc_model(m.skin_id);
        let p1 = e1;
        assert(Self::enc_model(m) == p1);
        let r1 = rest;
        let b = Self::enc_model(m) + rest;
        assert(b == e1 + r1);
        <u32 as NetworkAdapter>::lemma_dec_enc(m.skin_id, r1);
        assert(Self::enc_model(m).len() == e1.len());
        assert(Reskin { skin_id: m.skin_id } =~= m);
    }

    proof fn lemma_enc_dec(b: Seq<u8>, m: Reskin, n: int) {
        let (g1, n1) = <u32 as NetworkAdapter>::dec(b)->Ok_0;
        <u32 as NetworkAdapter>::lemma_enc_dec(b, g1, n1);
        assert(n == n1);
        assert(m.skin_id == g1);
        if Self::canon(b) {
            let s1 = n1;
            let q1 = <u32 as NetworkAdapter>::enc_model(m.skin_id);
            assert(q1 == b.take(s1));
            assert(Self::enc_model(m) == q1);
            assert(Self::enc_model(m) == b.take(n));
        }
    }
}

#[verifier::ext_equal]
#[derive(Debug, PartialEq, Clone)]
pub struct SetCondition {
    pub effect: u8,
    pub duration: F32Bits,
}

impl NetworkAdapter for SetCondition {
    type Model = SetCondition;

    open spec fn model(self) -> SetCondition {
        self
    }

    open spec fn enc_model(m: SetCondition) -> Seq<u8> {
        <u8 as NetworkAdapter>::enc_model(m.effect) + <F32Bits as NetworkAdapter>::enc_model(m.duration)
    }

    open spec fn valid_model(m: SetCondition) -> bool {
        <u8 as NetworkAdapter>::valid_model(m.effect) && <F32Bits as NetworkAdapter>::valid_model(m.duration)
    }

    closed spec fn dec(b: Seq<u8>) -> Result<(SetCondition, int), Error> {
        match <u8 as NetworkAdapter>::dec(b) {
            Ok((g1, n1)) => {
                let b1 = b.skip(n1);
                match <F32Bits as NetworkAdapter>::dec(b1) {
                    Ok((g2, n2)) => {
                        Ok((SetCondition { effect: g1, duration: g2 }, n1 + n2))
                    },
                    Err(e) => Err(e),
                }
            },
            Err(e) => Err(e),
        }
    }

    closed spec fn canon(b: Seq<u8>) -> bool {
        match <u8 as NetworkAdapter>::dec(b) {
            Ok((g1, n1)) => <u8 as NetworkAdapter>::canon(b) && {
                let b1 = b.skip(n1);
                match <F32Bits as NetworkAdapter>::dec(b1) {
                    Ok((g2, n2)) => <F32Bits as NetworkAdapter>::canon(b1) && {
                        true
                    },
                    Err(e) => true,
                }
            },
            Err(e) => true,
        }
    }

    fn get_be(r: &mut Reader) -> (res: Result<SetCondition, Error>) {
        let ghost b = old(r).remaining_bytes();
        let save = r.position();
        let x1 = match <u8 as NetworkAdapter>::get_be(r) {
            Ok(v) => v,
            Err(e) => {
                r.seek(save);
                return Err(e);
            },
        };
        let x2 = match <F32Bits as NetworkAdapter>::get_be(r) {
            Ok(v) => v,
            Err(e) => {
                r.seek(save);
                return Err(e);
            },
        };
        proof {
            let (g1, n1) = <u8 as NetworkAdapter>::dec(b)->Ok_0;
            let b1 = b.skip(n1);
            let (g2, n2) = <F32Bits as NetworkAdapter>::dec(b1)->Ok_0;
            lemma_skip_skip(b, n1, n2);
            assert(b1.skip(n2) == b.skip(n1 + n2));
        }
        Ok(SetCondition { effect: x1, duration: x2 })
    }

    fn put_be(self, out: &mut Vec<u8>) -> (res: Result<(), Error>) {
        let ghost m = self.model();
        let SetCondition { effect, duration } = self;
        let ghost e1 = <u8 as NetworkAdapter>::enc_model(m.effect);
        let ghost e2 = <F32Bits as NetworkAdapter>::enc_model(m.duration);
        let ghost p1 = e1;
        let ghost p2 = p1 + e2;
        let mut tmp: Vec<u8> = Vec::new();
        let ghost o0 = tmp@;
        match effect.put_be(&mut tmp) {
            Ok(()) => {},
            Err(e) => {
                return Err(e);
            },
        };
        let ghost o1 = tmp@;
        proof {
            assert(effect == m.effect);
            assert(o1 == o0 + p1);
        }
        match duration.put_be(&mut tmp) {
            Ok(()) => {},
            Err(e) => {
                return Err(e);
            },
        };
        let ghost o2 = tmp@;
        proof {
            assert(duration == m.duration);
            lemma_seq_assoc(o0, p1, e2);
            assert(o2 == o0 + p2);
        }
        out.append(&mut tmp);
        proof {
            assert(Self::enc_model(m) == p2);
            assert(o0 + p2 =~= p2);
            assert(out@ == old(out)@ + Self::enc_model(m));
        }
        Ok(())
    }

    proof fn lemma_dec_enc(m: SetCondition, rest: Seq<u8>) {
        let e1 = <u8 as NetworkAdapter>::enc_model(m.effect);
        let e2 = <F32Bits as NetworkAdapter>::enc_model(m.duration);
        let p1 = e1;
        let p2 = p1 + e2;
        assert(Self::enc_model(m) == p2);
        let r2 = rest;
        let r1 = e2 + r2;
        let b = Self::enc_model(m) + rest;
        lemma_seq_assoc(p1, e2, r2);
        assert(p2 + r2 == p1 + r1);
        assert(b == e1 + r1);
        <u8 as NetworkAdapter>::lemma_dec_enc(m.effect, r1);
        <F32Bits as NetworkAdapter>::lemma_dec_enc(m.duration, r2);
        let c1 = b.skip(e1.len() as int);
        lemma_skip_concat(e1, r1);
        assert(c1 == r1);
        assert(Self::enc_model(m).len() == e1.len() + e2.len());
        assert(SetCondition { effect: m.effect, duration: m.duration } =~= m);
    }

    proof fn lemma_enc_dec(b: Seq<u8>, m: SetCondition, n: int) {
        let (g1, n1) = <u8 as NetworkAdapter>::dec(b)->Ok_0;
        <u8 as NetworkAdapter>::lemma_enc_dec(b, g1, n1);
        let b1 = b.skip(n1);
        let (g2, n2) = <F32Bits as NetworkAdapter>::dec(b1)->Ok_0;
        <F32Bits as NetworkAdapter>::lemma_enc_dec(b1, g2, n2);
        assert(n == n1 + n2);
        assert(m.effect == g1);
        assert(m.duration == g2);
        if Self::canon(b) {
            let s1 = n1;
            let s2 = s1 + n2;
            let q1 = <u8 as NetworkAdapter>::enc_model(m.effect);
            assert(q1 == b.take(s1));
            lemma_take_concat(b, s1, n2);
            let q2 = q1 + <F32Bits as NetworkAdapter>::enc_model(m.duration);
            assert(q2 == b.take(s2));
            assert(Self::enc_model(m) == q2);
            assert(Self::enc_model(m) == b.take(n));
        }
    }
}

#[verifier::ext_equal]
#[derive(Debug, PartialEq, Clone)]
pub struct ShootAck {
    pub time: u32,
}

impl NetworkAdapter for ShootAck {
    type Model = ShootAck;

    open spec fn model(self) -> ShootAck {
        self
    }

    open spec fn enc_model(m: ShootAck) -> Seq<u8> {
        <u32 as NetworkAdapter>::enc_model(m.time)
    }

    open spec fn valid_model(m: ShootAck) -> bool {
        <u32 as NetworkAdapter>::valid_model(m.time)
    }

    closed spec fn dec(b: Seq<u8>) -> Result<(ShootAck, int), Error> {
        match <u32 as NetworkAdapter>::dec(b) {
            Ok((g1, n1)) => {
                Ok((ShootAck { time: g1 }, n1))
            },
            Err(e) => Err(e),
        }
    }

    closed spec fn canon(b: Seq<u8>) -> bool {
        match <u32 as NetworkAdapter>::dec(b) {
            Ok((g1, n1)) => <u32 as NetworkAdapter>::canon(b) && {
                true
            },
            Err(e) => true,
        }
    }

    fn get_be(r: &mut Reader) -> (res: Result<ShootAck, Error>) {
        let ghost b = old(r).remaining_bytes();
        let save = r.position();
        let x1 = match <u32 as NetworkAdapter>::get_be(r) {
            Ok(v) => v,
            Err(e) => {
                r.seek(save);
                return Err(e);
            },
        };
        proof {
            let (g1, n1) = <u32 as NetworkAdapter>::dec(b)->Ok_0;
        }
        Ok(ShootAck { time: x1 })
    }

    fn put_be(self, out: &mut Vec<u8>) -> (res: Result<(), Error>) {
        let ghost m = self.model();
        let ShootAck { time } = self;
        let ghost e1 = <u32 as NetworkAdapter>::enc_model(m.time);
        let ghost p1 = e1;
        let mut tmp: Vec<u8> = Vec::new();
        let ghost o0 = tmp@;
        match time.put_be(&mut tmp) {
            Ok(()) => {},
            Err(e) => {
                return Err(e);
            },
        };
        let ghost o1 = tmp@;
        proof {
            assert(time == m.time);
            assert(o1 == o0 + p1);
        }
        out.append(&mut tmp);
        proof {
            assert(Self::enc_model(m) == p1);
            assert(o0 + p1 =~= p1);
            assert(out@ == old(out)@ + Self::enc_model(m));
        }
        Ok(())
    }

    proof fn lemma_dec_enc(m: ShootAck, rest: Seq<u8>) {
        let e1 = <u32 as NetworkAdapter>::enc_model(m.time);
        let p1 = e1;
        assert(Self::enc_model(m) == p1);
        let r1 = rest;
        let b = Self::enc_model(m) + rest;
        assert(b == e1 + r1);
        <u32 as NetworkAdapter>::lemma_dec_enc(m.time, r1);
        assert(Self::enc_model(m).len() == e1.len());
        assert(ShootAck { time: m.time } =~= m);
    }

    proof fn lemma_enc_dec(b: Seq<u8>, m: ShootAck, n: int) {
        let (g1, n1) = <u32 as NetworkAdapter>::dec(b)->Ok_0;
        <u32 as NetworkAdapter>::lemma_enc_dec(b, g1, n1);
        assert(n == n1);
        assert(m.time == g1);
        if Self::canon(b) {
            let s1 = n1;
            let q1 = <u32 as NetworkAdapter>::enc_model(m.time);
            assert(q1 == b.take(s1));
            assert(Self::enc_model(m) == q1);
            assert(Self::enc_model(m) == b.take(n));
        }
    }
}

#[verifier::ext_equal]
#[derive(Debug, PartialEq, Clone)]
pub struct SquareHit {
    pub time: u32,
    pub bullet_id: u8,
    pub object_id: u32,
}

impl NetworkAdapter for SquareHit {
    type Model = SquareHit;

    open spec fn model(self) -> SquareHit {
        self
    }

    open spec fn enc_model(m: SquareHit) -> Seq<u8> {
        <u32 as NetworkAdapter>::enc_model(m.time) + <u8 as NetworkAdapter>::enc_model(m.bullet_id) + <u32 as NetworkAdapter>::enc_model(m.object_id)
    }

    open spec fn valid_model(m: SquareHit) -> bool {
        <u32 as NetworkAdapter>::valid_model(m.time) && <u8 as NetworkAdapter>::valid_model(m.bullet_id) && <u32 as NetworkAdapter>::valid_model(m.object_id)
    }

    closed spec fn dec(b: Seq<u8>) -> Result<(SquareHit, int), Error> {
        match <u32 as NetworkAdapter>::dec(b) {
            Ok((g1, n1)) => {
                let b1 = b.skip(n1);
                match <u8 as NetworkAdapter>::dec(b1) {
                    Ok((g2, n2)) => {
                        let b2 = b1.skip(n2);
                        match <u32 as NetworkAdapter>::dec(b2) {
                            Ok((g3, n3)) => {
                                Ok((SquareHit { time: g1, bullet_id: g2, object_id: g3 }, n1 + n2 + n3))
                            },
                            Err(e) => Err(e),
                        }
                    },
                    Err(e) => Err(e),
                }
            },
            Err(e) => Err(e),
        }
    }

    closed spec fn canon(b: Seq<u8>) -> bool {
        match <u32 as NetworkAdapter>::dec(b) {
            Ok((g1, n1)) => <u32 as NetworkAdapter>::canon(b) && {
                let b1 = b.skip(n1);
                match <u8 as NetworkAdapter>::dec(b1) {
                    Ok((g2, n2)) => <u8 as NetworkAdapter>::canon(b1) && {
                        let b2 = b1.skip(n2);
                        match <u32 as NetworkAdapter>::dec(b2) {
                            Ok((g3, n3)) => <u32 as NetworkAdapter>::canon(b2) && {
                                true
                            },
                            Err(e) => true,
                        }
                    },
                    Err(e) => true,
                }
            },
            Err(e) => true,
        }
    }

    fn get_be(r: &mut Reader) -> (res: Result<SquareHit, Error>) {
        let ghost b = old(r).remaining_bytes();
        let save = r.position();
        let x1 = match <u32 as NetworkAdapter>::get_be(r) {
            Ok(v) => v,
            Err(e) => {
                r.seek(save);
                return Err(e);
            },
        };
        let x2 = match <u8 as NetworkAdapter>::get_be(r) {
            Ok(v) => v,
            Err(e) => {
                r.seek(save);
                return Err(e);
            },
        };
        let x3 = match <u32 as NetworkAdapter>::get_be(r) {
            Ok(v) => v,
            Err(e) => {
                r.seek(save);
                return Err(e);
            },
        };
        proof {
            let (g1, n1) = <u32 as NetworkAdapter>::dec(b)->Ok_0;
            let b1 = b.skip(n1);
            let (g2, n2) = <u8 as NetworkAdapter>::dec(b1)->Ok_0;
            let b2 = b1.skip(n2);
            let (g3, n3) = <u32 as NetworkAdapter>::dec(b2)->Ok_0;
            lemma_skip_skip(b, n1, n2);
            assert(b2 == b.skip(n1 + n2));
            lemma_skip_skip(b, n1 + n2, n3);
            assert(b2.skip(n3) == b.skip(n1 + n2 + n3));
        }
        Ok(SquareHit { time: x1, bullet_id: x2, object_id: x3 })
    }

    fn put_be(self, out: &mut Vec<u8>) -> (res: Result<(), Error>) {
        let ghost m = self.model();
        let SquareHit { time, bullet_id, object_id } = self;
        let ghost e1 = <u32 as NetworkAdapter>::enc_model(m.time);
        let ghost e2 = <u8 as NetworkAdapter>::enc_model(m.bullet_id);
        let ghost e3 = <u32 as NetworkAdapter>::enc_model(m.object_id);
        let ghost p1 = e1;
        let ghost p2 = p1 + e2;
        let ghost p3 = p2 + e3;
        let mut tmp: Vec<u8> = Vec::new();
        let ghost o0 = tmp@;
        match time.put_be(&mut tmp) {
            Ok(()) => {},
            Err(e) => {
                return Err(e);
            },
        };
        let ghost o1 = tmp@;
        proof {
            assert(time == m.time);
            assert(o1 == o0 + p1);
        }
        match bullet_id.put_be(&mut tmp) {
            Ok(()) => {},
            Err(e) => {
                return Err(e);
            },
        };
        let ghost o2 = tmp@;
        proof {
            assert(bullet_id == m.bullet_id);
            lemma_seq_assoc(o0, p1, e2);
            assert(o2 == o0 + p2);
        }
        match object_id.put_be(&mut tmp) {
            Ok(()) => {},
            Err(e) => {
                return Err(e);
            },
        };
        let ghost o3 = tmp@;
        proof {
            assert(object_id == m.object_id);
            lemma_seq_assoc(o0, p2, e3);
            assert(o3 == o0 + p3);
        }
        out.append(&mut tmp);
        proof {
            assert(Self::enc_model(m) == p3);
            assert(o0 + p3 =~= p3);
            assert(out@ == old(out)@ + Self::enc_model(m));
        }
        Ok(())
    }

    proof fn lemma_dec_enc(m: SquareHit, rest: Seq<u8>) {
        let e1 = <u32 as NetworkAdapter>::enc_model(m.time);
        let e2 = <u8 as NetworkAdapter>::enc_model(m.bullet_id);
        let e3 = <u32 as NetworkAdapter>::enc_model(m.object_id);
        let p1 = e1;
        let p2 = p1 + e2;
        let p3 = p2 + e3;
        assert(Self::enc_model(m) == p3);
        let r3 = rest;
        let r2 = e3 + r3;
        let r1 = e2 + r2;
        let b = Self::enc_model(m) + rest;
        lemma_seq_assoc(p2, e3, r3);
        assert(p3 + r3 == p2 + r2);
        lemma_seq_assoc(p1, e2, r2);
        assert(p2 + r2 == p1 + r1);
        assert(b == e1 + r1);
        <u32 as NetworkAdapter>::lemma_dec_enc(m.time, r1);
        <u8 as NetworkAdapter>::lemma_dec_enc(m.bullet_id, r2);
        <u32 as NetworkAdapter>::lemma_dec_enc(m.object_id, r3);
        let c1 = b.skip(e1.len() as int);
        lemma_skip_concat(e1, r1);
        assert(c1 == r1);
        let c2 = c1.skip(e2.len() as int);
        lemma_skip_concat(e2, r2);
        assert(c2 == r2);
        assert(Self::enc_model(m).len() == e1.len() + e2.len() + e3.len());
        assert(SquareHit { time: m.time, bullet_id: m.bullet_id, object_id: m.object_id } =~= m);
    }

    proof fn lemma_enc_dec(b: Seq<u8>, m: SquareHit, n: int) {
        let (g1, n1) = <u32 as NetworkAdapter>::dec(b)->Ok_0;
        <u32 as NetworkAdapter>::lemma_enc_dec(b, g1, n1);
        let b1 = b.skip(n1);
        let (g2, n2) = <u8 as NetworkAdapter>::dec(b1)->Ok_0;
        <u8 as NetworkAdapter>::lemma_enc_dec(b1, g2, n2);
        let b2 = b1.skip(n2);
        let (g3, n3) = <u32 as NetworkAdapter>::dec(b2)->Ok_0;
        <u32 as NetworkAdapter>::lemma_enc_dec(b2, g3, n3);
        lemma_skip_skip(b, n1, n2);
        assert(b2 == b.skip(n1 + n2));
        assert(n == n1 + n2 + n3);
        assert(m.time == g1);
        assert(m.bullet_id == g2);
        assert(m.object_id == g3);
        if Self::canon(b) {
            let s1 = n1;
            let s2 = s1 + n2;
            let s3 = s2 + n3;
            let q1 = <u32 as NetworkAdapter>::enc_model(m.time);
            assert(q1 == b.take(s1));
            lemma_take_concat(b, s1, n2);
            let q2 = q1 + <u8 as NetworkAdapter>::enc_model(m.bullet_id);
            assert(q2 == b.take(s2));
            lemma_take_concat(b, s2, n3);
            let q3 = q2 + <u32 as NetworkAdapter>::enc_model(m.object_id);
            assert(q3 == b.take(s3));
            assert(Self::enc_model(m) == q3);
            assert(Self::enc_model(m) == b.take(n));
        }
    }
}

#[verifier::ext_equal]
#[derive(Debug, PartialEq, Clone)]
pub struct Teleport {
    pub object_id: u32,
}

impl NetworkAdapter for Teleport {
    type Model = Teleport;

    open spec fn model(self) -> Teleport {
        self
    }

    open spec fn enc_model(m: Teleport) -> Seq<u8> {
        <u32 as NetworkAdapter>::enc_model(m.object_id)
    }

    open spec fn valid_model(m: Teleport) -> bool {
        <u32 as NetworkAdapter>::valid_model(m.object_id)
    }

    closed spec fn dec(b: Seq<u8>) -> Result<(Teleport, int), Error> {
        match <u32 as NetworkAdapter>::dec(b) {
            Ok((g1, n1)) => {
                Ok((Teleport { object_id: g1 }, n1))
            },
            Err(e) => Err(e),
        }
    }

    closed spec fn canon(b: Seq<u8>) -> bool {
        match <u32 as NetworkAdapter>::dec(b) {
            Ok((g1, n1)) => <u32 as NetworkAdapter>::canon(b) && {
                true
            },
            Err(e) => true,
        }
    }

    fn get_be(r: &mut Reader) -> (res: Result<Teleport, Error>) {
        let ghost b = old(r).remaining_bytes();
        let save = r.position();
        let x1 = match <u32 as NetworkAdapter>::get_be(r) {
            Ok(v) => v,
            Err(e) => {
                r.seek(save);
                return Err(e);
            },
        };
        proof {
            let (g1, n1) = <u32 as NetworkAdapter>::dec(b)->Ok_0;
        }
        Ok(Teleport { object_id: x1 })
    }

    fn put_be(self, out: &mut Vec<u8>) -> (res: Result<(), Error>) {
        let ghost m = self.model();
        let Teleport { object_id } = self;
        let ghost e1 = <u32 as NetworkAdapter>::enc_model(m.object_id);
        let ghost p1 = e1;
        let mut tmp: Vec<u8> = Vec::new();
        let ghost o0 = tmp@;
        match object_id.put_be(&mut tmp) {
            Ok(()) => {},
            Err(e) => {
                return Err(e);
            },
        };
        let ghost o1 = tmp@;
        proof {
            assert(object_id == m.object_id);
            assert(o1 == o0 + p1);
        }
        out.append(&mut tmp);
        proof {
            assert(Self::enc_model(m) == p1);
            assert(o0 + p1 =~= p1);
            assert(out@ == old(out)@ + Self::enc_model(m));
        }
        Ok(())
    }

    proof fn lemma_dec_enc(m: Teleport, rest: Seq<u8>) {
        let e1 = <u32 as NetworkAdapter>::enc_model(m.object_id);
        let p1 = e1;
        assert(Self::enc_model(m) == p1);
        let r1 = rest;
        let b = Self::enc_model(m) + rest;
        assert(b == e1 + r1);
        <u32 as NetworkAdapter>::lemma_dec_enc(m.object_id, r1);
        assert(Self::enc_model(m).len() == e1.len());
        assert(Teleport { object_id: m.object_id } =~= m);
    }

    proof fn lemma_enc_dec(b: Seq<u8>, m: Teleport, n: int) {
        let (g1, n1) = <u32 as NetworkAdapter>::dec(b)->Ok_0;
        <u32 as NetworkAdapter>::lemma_enc_dec(b, g1, n1);
        assert(n == n1);
        assert(m.object_id == g1);
        if Self::canon(b) {
            let s1 = n1;
            let q1 = <u32 as NetworkAdapter>::enc_model(m.object_id);
            assert(q1 == b.take(s1));
            assert(Self::enc_model(m) == q1);
            assert(Self::enc_model(m) == b.take(n));
        }
    }
}

#[verifier::ext_equal]
#[derive(Debug, PartialEq, Clone)]
pub struct UpdateAck {
}

impl NetworkAdapter for UpdateAck {
    type Model = UpdateAck;

    open spec fn model(self) -> UpdateAck {
        self
    }

    open spec fn enc_model(m: UpdateAck) -> Seq<u8> {
        Seq::empty()
    }

    open spec fn valid_model(m: UpdateAck) -> bool {
        true
    }

    closed spec fn dec(b: Seq<u8>) -> Result<(UpdateAck, int), Error> {
        Ok((UpdateAck {  }, 0))
    }

    closed spec fn canon(b: Seq<u8>) -> bool {
        true
    }

    fn get_be(r: &mut Reader) -> (res: Result<UpdateAck, Error>) {
        let ghost b = old(r).remaining_bytes();
        proof {
            assert(b.skip(0) =~= b);
        }
        Ok(UpdateAck {  })
    }

    fn put_be(self, out: &mut Vec<u8>) -> (res: Result<(), Error>) {
        let ghost m = self.model();
        let UpdateAck {  } = self;
        let mut tmp: Vec<u8> = Vec::new();
        let ghost o0 = tmp@;
        out.append(&mut tmp);
        proof {
            assert(out@ =~= old(out)@ + Self::enc_model(m));
        }
        Ok(())
    }

    proof fn lemma_dec_enc(m: UpdateAck, rest: Seq<u8>) {
        assert(m =~= UpdateAck {  });
    }

    proof fn lemma_enc_dec(b: Seq<u8>, m: UpdateAck, n: int) {
        assert(m =~= UpdateAck {  });
        assert(Self::enc_model(m) =~= b.take(0));
    }
}

#[verifier::ext_equal]
#[derive(Debug, PartialEq, Clone)]
pub struct UseItem {
    pub time: u32,
    pub slot: SlotObjectData,
    pub pos: WorldPosData,
    pub use_type: u32,
}

impl NetworkAdapter for UseItem {
    type Model = UseItem;

    open spec fn model(self) -> UseItem {
        self
    }

    open spec fn enc_model(m: UseItem) -> Seq<u8> {
        <u32 as NetworkAdapter>::enc_model(m.time) + <SlotObjectData as NetworkAdapter>::enc_model(m.slot) + <WorldPosData as NetworkAdapter>::enc_model(m.pos) + <u32 as NetworkAdapter>::enc_model(m.use_type)
    }

    open spec fn valid_model(m: UseItem) -> bool {
        <u32 as NetworkAdapter>::valid_model(m.time) && <SlotObjectData as NetworkAdapter>::valid_model(m.slot) && <WorldPosData as NetworkAdapter>::valid_model(m.pos) && <u32 as NetworkAdapter>::valid_model(m.use_type)
    }

    closed spec fn dec(b: Seq<u8>) -> Result<(UseItem, int), Error> {
        match <u32 as NetworkAdapter>::dec(b) {
            Ok((g1, n1)) => {
                let b1 = b.skip(n1);
                match <SlotObjectData as NetworkAdapter>::dec(b1) {
                    Ok((g2, n2)) => {
                        let b2 = b1.skip(n2);
                        match <WorldPosData as NetworkAdapter>::dec(b2) {
                            Ok((g3, n3)) => {
                                let b3 = b2.skip(n3);
                                match <u32 as NetworkAdapter>::dec(b3) {
                                    Ok((g4, n4)) => {
                                        Ok((UseItem { time: g1, slot: g2, pos: g3, use_type: g4 }, n1 + n2 + n3 + n4))
                                    },
                                    Err(e) => Err(e),
                                }
                            },
                            Err(e) => Err(e),
                        }
                    },
                    Err(e) => Err(e),
                }
            },
            Err(e) => Err(e),
        }
    }

    closed spec fn canon(b: Seq<u8>) -> bool {
        match <u32 as NetworkAdapter>::dec(b) {
            Ok((g1, n1)) => <u32 as NetworkAdapter>::canon(b) && {
                let b1 = b.skip(n1);
                match <SlotObjectData as NetworkAdapter>::dec(b1) {
                    Ok((g2, n2)) => <SlotObjectData as NetworkAdapter>::canon(b1) && {
                        let b2 = b1.skip(n2);
                        match <WorldPosData as NetworkAdapter>::dec(b2) {
                            Ok((g3, n3)) => <WorldPosData as NetworkAdapter>::canon(b2) && {
                                let b3 = b2.skip(n3);
                                match <u32 as NetworkAdapter>::dec(b3) {
                                    Ok((g4, n4)) => <u32 as NetworkAdapter>::canon(b3) && {
                                        true
                                    },
                                    Err(e) => true,
                                }
                            },
                            Err(e) => true,
                        }
                    },
                    Err(e) => true,
                }
            },
            Err(e) => true,
        }
    }

    fn get_be(r: &mut Reader) -> (res: Result<UseItem, Error>) {
        let ghost b = old(r).remaining_bytes();
        let save = r.position();
        let x1 = match <u32 as NetworkAdapter>::get_be(r) {
            Ok(v) => v,
            Err(e) => {
                r.seek(save);
                return Err(e);
            },
        };
        let x2 = match <SlotObjectData as NetworkAdapter>::get_be(r) {
            Ok(v) => v,
            Err(e) => {
                r.seek(save);
                return Err(e);
            },
        };
        let x3 = match <WorldPosData as NetworkAdapter>::get_be(r) {
            Ok(v) => v,
            Err(e) => {
                r.seek(save);
                return Err(e);
            },
        };
        let x4 = match <u32 as NetworkAdapter>::get_be(r) {
            Ok(v) => v,
            Err(e) => {
                r.seek(save);
                return Err(e);
            },
        };
        proof {
            let (g1, n1) = <u32 as NetworkAdapter>::dec(b)->Ok_0;
            let b1 = b.skip(n1);
            let (g2, n2) = <SlotObjectData as NetworkAdapter>::dec(b1)->Ok_0;
            let b2 = b1.skip(n2);
            let (g3, n3) = <WorldPosData as NetworkAdapter>::dec(b2)->Ok_0;
            let b3 = b2.skip(n3);
            let (g4, n4) = <u32 as NetworkAdapter>::dec(b3)->Ok_0;
            lemma_skip_skip(b, n1, n2);
            assert(b2 == b.skip(n1 + n2));
            lemma_skip_skip(b, n1 + n2, n3);
            assert(b3 == b.skip(n1 + n2 + n3));
            lemma_skip_skip(b, n1 + n2 + n3, n4);
            assert(b3.skip(n4) == b.skip(n1 + n2 + n3 + n4));
        }
        Ok(UseItem { time: x1, slot: x2, pos: x3, use_type: x4 })
    }

    fn put_be(self, out: &mut Vec<u8>) -> (res: Result<(), Error>) {
        let ghost m = self.model();
        let UseItem { time, slot, pos, use_type } = self;
        let ghost e1 = <u32 as NetworkAdapter>::enc_model(m.time);
        let ghost e2 = <SlotObjectData as NetworkAdapter>::enc_model(m.slot);
        let ghost e3 = <WorldPosData as NetworkAdapter>::enc_model(m.pos);
        let ghost e4 = <u32 as NetworkAdapter>::enc_model(m.use_type);
        let ghost p1 = e1;
        let ghost p2 = p1 + e2;
        let ghost p3 = p2 + e3;
        let ghost p4 = p3 + e4;
        let mut tmp: Vec<u8> = Vec::new();
        let ghost o0 = tmp@;
        match time.put_be(&mut tmp) {
            Ok(()) => {},
            Err(e) => {
                return Err(e);
            },
        };
        let ghost o1 = tmp@;
        proof {
            assert(time == m.time);
            assert(o1 == o0 + p1);
        }
        match slot.put_be(&mut tmp) {
            Ok(()) => {},
            Err(e) => {
                return Err(e);
            },
        };
        let ghost o2 = tmp@;
        proof {
            assert(slot == m.slot);
            lemma_seq_assoc(o0, p1, e2);
            assert(o2 == o0 + p2);
        }
        match pos.put_be(&mut tmp) {
            Ok(()) => {},
            Err(e) => {
                return Err(e);
            },
        };
        let ghost o3 = tmp@;
        proof {
            assert(pos == m.pos);
            lemma_seq_assoc(o0, p2, e3);
            assert(o3 == o0 + p3);
        }
        match use_type.put_be(&mut tmp) {
            Ok(()) => {},
            Err(e) => {
                return Err(e);
            },
        };
        let ghost o4 = tmp@;
        proof {
            assert(use_type == m.use_type);
            lemma_seq_assoc(o0, p3, e4);
            assert(o4 == o0 + p4);
        }
        out.append(&mut tmp);
        proof {
            assert(Self::enc_model(m) == p4);
            assert(o0 + p4 =~= p4);
            assert(out@ == old(out)@ + Self::enc_model(m));
        }
        Ok(())
    }

    proof fn lemma_dec_enc(m: UseItem, rest: Seq<u8>) {
        let e1 = <u32 as NetworkAdapter>::enc_model(m.time);
        let e2 = <SlotObjectData as NetworkAdapter>::enc_model(m.slot);
        let e3 = <WorldPosData as NetworkAdapter>::enc_model(m.pos);
        let e4 = <u32 as NetworkAdapter>::enc_model(m.use_type);
        let p1 = e1;
        let p2 = p1 + e2;
        let p3 = p2 + e3;
        let p4 = p3 + e4;
        assert(Self::enc_model(m) == p4);
        let r4 = rest;
        let r3 = e4 + r4;
        let r2 = e3 + r3;
        let r1 = e2 + r2;
        let b = Self::enc_model(m) + rest;
        lemma_seq_assoc(p3, e4, r4);
        assert(p4 + r4 == p3 + r3);
        lemma_seq_assoc(p2, e3, r3);
        assert(p3 + r3 == p2 + r2);
        lemma_seq_assoc(p1, e2, r2);
        assert(p2 + r2 == p1 + r1);
        assert(b == e1 + r1);
        <u32 as NetworkAdapter>::lemma_dec_enc(m.time, r1);
        <SlotObjectData as NetworkAdapter>::lemma_dec_enc(m.slot, r2);
        <WorldPosData as NetworkAdapter>::lemma_dec_enc(m.pos, r3);
        <u32 as NetworkAdapter>::lemma_dec_enc(m.use_type, r4);
        let c1 = b.skip(e1.len() as int);
        lemma_skip_concat(e1, r1);
        assert(c1 == r1);
        let c2 = c1.skip(e2.len() as int);
        lemma_skip_concat(e2, r2);
        assert(c2 == r2);
        let c3 = c2.skip(e3.len() as int);
        lemma_skip_concat(e3, r3);
        assert(c3 == r3);
        assert(Self::enc_model(m).len() == e1.len() + e2.len() + e3.len() + e4.len());
        assert(UseItem { time: m.time, slot: m.slot, pos: m.pos, use_type: m.use_type } =~= m);
    }

    proof fn lemma_enc_dec(b: Seq<u8>, m: UseItem, n: int) {
        let (g1, n1) = <u32 as NetworkAdapter>::dec(b)->Ok_0;
        <u32 as NetworkAdapter>::lemma_enc_dec(b, g1, n1);
        let b1 = b.skip(n1);
        let (g2, n2) = <SlotObjectData as NetworkAdapter>::dec(b1)->Ok_0;
        <SlotObjectData as NetworkAdapter>::lemma_enc_dec(b1, g2, n2);
        let b2 = b1.skip(n2);
        let (g3, n3) = <WorldPosData as NetworkAdapter>::dec(b2)->Ok_0;
        <WorldPosData as NetworkAdapter>::lemma_enc_dec(b2, g3, n3);
        let b3 = b2.skip(n3);
        let (g4, n4) = <u32 as NetworkAdapter>::dec(b3)->Ok_0;
        <u32 as NetworkAdapter>::lemma_enc_dec(b3, g4, n4);
        lemma_skip_skip(b, n1, n2);
        assert(b2 == b.skip(n1 + n2));
        lemma_skip_skip(b, n1 + n2, n3);
        assert(b3 == b.skip(n1 + n2 + n3));
        assert(n == n1 + n2 + n3 + n4);
        assert(m.time == g1);
        assert(m.slot == g2);
        assert(m.pos == g3);
        assert(m.use_type == g4);
        if Self::canon(b) {
            let s1 = n1;
            let s2 = s1 + n2;
            let s3 = s2 + n3;
            let s4 = s3 + n4;
            let q1 = <u32 as NetworkAdapter>::enc_model(m.time);
            assert(q1 == b.take(s1));
            lemma_take_concat(b, s1, n2);
            let q2 = q1 + <SlotObjectData as NetworkAdapter>::enc_model(m.slot);
            assert(q2 == b.take(s2));
            lemma_take_concat(b, s2, n3);
            let q3 = q2 + <WorldPosData as NetworkAdapter>::enc_model(m.pos);
            assert(q3 == b.take(s3));
            lemma_take_concat(b, s3, n4);
            let q4 = q3 + <u32 as NetworkAdapter>::enc_model(m.use_type);
            assert(q4 == b.take(s4));
            assert(Self::enc_model(m) == q4);
            assert(Self::enc_model(m) == b.take(n));
        }
    }
}

#[verifier::ext_equal]
#[derive(Debug, PartialEq, Clone)]
pub struct UsePortal {
    pub object_id: u32,
}

impl NetworkAdapter for UsePortal {
    type Model = UsePortal;

    open spec fn model(self) -> UsePortal {
        self
    }

    open spec fn enc_model(m: UsePortal) -> Seq<u8> {
        <u32 as NetworkAdapter>::enc_model(m.object_id)
    }

    open spec fn valid_model(m: UsePortal) -> bool {
        <u32 as NetworkAdapter>::valid_model(m.object_id)
    }

    closed spec fn dec(b: Seq<u8>) -> Result<(UsePortal, int), Error> {
        match <u32 as NetworkAdapter>::dec(b) {
            Ok((g1, n1)) => {
                Ok((UsePortal { object_id: g1 }, n1))
            },
            Err(e) => Err(e),
        }
    }

    closed spec fn canon(b: Seq<u8>) -> bool {
        match <u32 as NetworkAdapter>::dec(b) {
            Ok((g1, n1)) => <u32 as NetworkAdapter>::canon(b) && {
                true
            },
            Err(e) => true,
        }
    }

    fn get_be(r: &mut Reader) -> (res: Result<UsePortal, Error>) {
        let ghost b = old(r).remaining_bytes();
        let save = r.position();
        let x1 = match <u32 as NetworkAdapter>::get_be(r) {
            Ok(v) => v,
            Err(e) => {
                r.seek(save);
                return Err(e);
            },
        };
        proof {
            let (g1, n1) = <u32 as NetworkAdapter>::dec(b)->Ok_0;
        }
        Ok(UsePortal { object_id: x1 })
    }

    fn put_be(self, out: &mut Vec<u8>) -> (res: Result<(), Error>) {
        let ghost m = self.model();
        let UsePortal { object_id } = self;
        let ghost e1 = <u32 as NetworkAdapter>::enc_model(m.object_id);
        let ghost p1 = e1;
        let mut tmp: Vec<u8> = Vec::new();
        let ghost o0 = tmp@;
        match object_id.put_be(&mut tmp) {
            Ok(()) => {},
            Err(e) => {
                return Err(e);
            },
        };
        let ghost o1 = tmp@;
        proof {
            assert(object_id == m.object_id);
            assert(o1 == o0 + p1);
        }
        out.append(&mut tmp);
        proof {
            assert(Self::enc_model(m) == p1);
            assert(o0 + p1 =~= p1);
            assert(out@ == old(out)@ + Self::enc_model(m));
        }
        Ok(())
    }

    proof fn lemma_dec_enc(m: UsePortal, rest: Seq<u8>) {
        let e1 = <u32 as NetworkAdapter>::enc_model(m.object_id);
        let p1 = e1;
        assert(Self::enc_model(m) == p1);
        let r1 = rest;
        let b = Self::enc_model(m) + rest;
        assert(b == e1 + r1);
        <u32 as NetworkAdapter>::lemma_dec_enc(m.object_id, r1);
        assert(Self::enc_model(m).len() == e1.len());
        assert(UsePortal { object_id: m.object_id } =~= m);
    }

    proof fn lemma_enc_dec(b: Seq<u8>, m: UsePortal, n: int) {
        let (g1, n1) = <u32 as NetworkAdapter>::dec(b)->Ok_0;
        <u32 as NetworkAdapter>::lemma_enc_dec(b, g1, n1);
        assert(n == n1);
        assert(m.object_id == g1);
        if Self::canon(b) {
            let s1 = n1;
            let q1 = <u32 as NetworkAdapter>::enc_model(m.object_id);
            assert(q1 == b.take(s1));
            assert(Self::enc_model(m) == q1);
            assert(Self::enc_model(m) == b.take(n));
        }
    }
}

#[verifier::ext_equal]
#[derive(Debug, PartialEq, Clone)]
pub struct QuestFetchAsk {
}

impl NetworkAdapter for QuestFetchAsk {
    type Model = QuestFetchAsk;

    open spec fn model(self) -> QuestFetchAsk {
        self
    }

    open spec fn enc_model(m: QuestFetchAsk) -> Seq<u8> {
        Seq::empty()
    }

    open spec fn valid_model(m: QuestFetchAsk) -> bool {
        true
    }

    closed spec fn dec(b: Seq<u8>) -> Result<(QuestFetchAsk, int), Error> {
        Ok((QuestFetchAsk {  }, 0))
    }

    closed spec fn canon(b: Seq<u8>) -> bool {
        true
    }

    fn get_be(r: &mut Reader) -> (res: Result<QuestFetchAsk, Error>) {
        let ghost b = old(r).remaining_bytes();
        proof {
            assert(b.skip(0) =~= b);
        }
        Ok(QuestFetchAsk {  })
    }

    fn put_be(self, out: &mut Vec<u8>) -> (res: Result<(), Error>) {
        let ghost m = self.model();
        let QuestFetchAsk {  } = self;
        let mut tmp: Vec<u8> = Vec::new();
        let ghost o0 = tmp@;
        out.append(&mut tmp);
        proof {
            assert(out@ =~= old(out)@ + Self::enc_model(m));
        }
        Ok(())
    }

    proof fn lemma_dec_enc(m: QuestFetchAsk, rest: Seq<u8>) {
        assert(m =~= QuestFetchAsk {  });
    }

    proof fn lemma_enc_dec(b: Seq<u8>, m: QuestFetchAsk, n: int) {
        assert(m =~= QuestFetchAsk {  });
        assert(Self::enc_model(m) =~= b.take(0));
    }
}

#[verifier::ext_equal]
#[derive(Debug, PartialEq, Clone)]
pub struct AcceptArenaDeath {
}

impl NetworkAdapter for AcceptArenaDeath {
    type Model = AcceptArenaDeath;

    open spec fn model(self) -> AcceptArenaDeath {
        self
    }

    open spec fn enc_model(m: AcceptArenaDeath) -> Seq<u8> {
        Seq::empty()
    }

    open spec fn valid_model(m: AcceptArenaDeath) -> bool {
        true
    }

    closed spec fn dec(b: Seq<u8>) -> Result<(AcceptArenaDeath, int), Error> {
        Ok((AcceptArenaDeath {  }, 0))
    }

    closed spec fn canon(b: Seq<u8>) -> bool {
        true
    }

    fn get_be(r: &mut Reader) -> (res: Result<AcceptArenaDeath, Error>) {
        let ghost b = old(r).remaining_bytes();
        proof {
            assert(b.skip(0) =~= b);
        }
        Ok(AcceptArenaDeath {  })
    }

    fn put_be(self, out: &mut Vec<u8>) -> (res: Result<(), Error>) {
        let ghost m = self.model();
        let AcceptArenaDeath {  } = self;
        let mut tmp: Vec<u8> = Vec::new();
        let ghost o0 = tmp@;
        out.append(&mut tmp);
        proof {
            assert(out@ =~= old(out)@ + Self::enc_model(m));
        }
        Ok(())
    }

    proof fn lemma_dec_enc(m: AcceptArenaDeath, rest: Seq<u8>) {
        assert(m =~= AcceptArenaDeath {  });
    }

    proof fn lemma_enc_dec(b: Seq<u8>, m: AcceptArenaDeath, n: int) {
        assert(m =~= AcceptArenaDeath {  });
        assert(Self::enc_model(m) =~= b.take(0));
    }
}

} // verus!
