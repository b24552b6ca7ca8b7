//! Messages sent by the game server, with their byte adapters.

use crate::adapters::primitives::{F32Bits, F64Bits};
use crate::adapters::rle::RLE;
use crate::adapters::{lemma_seq_assoc, lemma_skip_concat, lemma_skip_skip, lemma_take_concat, Error, NetworkAdapter, Reader};
use crate::gamedata::basic::{GroundTileData, MoveRecord, ObjectData, ObjectStatusData, QuestData, SlotObjectData, TradeItem, WorldPosData};
use crate::gamedata::basic::{ObjectDataModel, ObjectStatusDataModel, QuestDataModel};
use crate::gamedata::stat::{StatData, StatDataModel};
use vstd::prelude::*;

verus! {

#[verifier::ext_equal]
#[derive(Debug, PartialEq, Clone)]
pub struct AccountList {
    pub account_list_id: u32,
    pub account_ids: RLE<Vec<RLE<String, u16>>, u16>,
    pub lock_action: u32,
}

/// The mathematical model of a decoded `AccountList`.
#[verifier::ext_equal]
pub struct AccountListModel {
    pub account_list_id: u32,
    pub account_ids: Seq<Seq<char>>,
    pub lock_action: u32,
}

impl NetworkAdapter for AccountList {
    type Model = AccountListModel;

    open spec fn model(self) -> AccountListModel {
        AccountListModel {
            account_list_id: self.account_list_id.model(),
            account_ids: self.account_ids.model(),
            lock_action: self.lock_action.model(),
        }
    }

    open spec fn enc_model(m: AccountListModel) -> Seq<u8> {
        <u32 as NetworkAdapter>::enc_model(m.account_list_id) + <RLE<Vec<RLE<String, u16>>, u16> as NetworkAdapter>::enc_model(m.account_ids) + <u32 as NetworkAdapter>::enc_model(m.lock_action)
    }

    open spec fn valid_model(m: AccountListModel) -> bool {
        <u32 as NetworkAdapter>::valid_model(m.account_list_id) && <RLE<Vec<RLE<String, u16>>, u16> as NetworkAdapter>::valid_model(m.account_ids) && <u32 as NetworkAdapter>::valid_model(m.lock_action)
    }

    closed spec fn dec(b: Seq<u8>) -> Result<(AccountListModel, int), Error> {
        match <u32 as NetworkAdapter>::dec(b) {
            Ok((g1, n1)) => {
                let b1 = b.skip(n1);
                match <RLE<Vec<RLE<String, u16>>, u16> as NetworkAdapter>::dec(b1) {
                    Ok((g2, n2)) => {
                        let b2 = b1.skip(n2);
                        match <u32 as NetworkAdapter>::dec(b2) {
                            Ok((g3, n3)) => {
                                Ok((AccountListModel { account_list_id: g1, account_ids: g2, lock_action: g3 }, n1 + n2 + n3))
                            },
                            Err(e) => Err(e),
                        }
                    },
                    Err(e) => Err(e),
                }
            },
            Err(e) => Err(e),
        }
    }

    closed spec fn canon(b: Seq<u8>) -> bool {
        match <u32 as NetworkAdapter>::dec(b) {
            Ok((g1, n1)) => <u32 as NetworkAdapter>::canon(b) && {
                let b1 = b.skip(n1);
                match <RLE<Vec<RLE<String, u16>>, u16> as NetworkAdapter>::dec(b1) {
                    Ok((g2, n2)) => <RLE<Vec<RLE<String, u16>>, u16> as NetworkAdapter>::canon(b1) && {
                        let b2 = b1.skip(n2);
                        match <u32 as NetworkAdapter>::dec(b2) {
                            Ok((g3, n3)) => <u32 as NetworkAdapter>::canon(b2) && {
                                true
                            },
                            Err(e) => true,
                        }
                    },
                    Err(e) => true,
                }
            },
            Err(e) => true,
        }
    }

    fn get_be(r: &mut Reader) -> (res: Result<AccountList, Error>) {
        let ghost b = old(r).remaining_bytes();
        let save = r.position();
        let x1 = match <u32 as NetworkAdapter>::get_be(r) {
            Ok(v) => v,
            Err(e) => {
                r.seek(save);
                return Err(e);
            },
        };
        let x2 = match <RLE<Vec<RLE<String, u16>>, u16> as NetworkAdapter>::get_be(r) {
            Ok(v) => v,
            Err(e) => {
                r.seek(save);
                return Err(e);
            },
        };
        let x3 = match <u32 as NetworkAdapter>::get_be(r) {
            Ok(v) => v,
            Err(e) => {
                r.seek(save);
                return Err(e);
            },
        };
        proof {
            let (g1, n1) = <u32 as NetworkAdapter>::dec(b)->Ok_0;
            let b1 = b.skip(n1);
            let (g2, n2) = <RLE<Vec<RLE<String, u16>>, u16> as NetworkAdapter>::dec(b1)->Ok_0;
            let b2 = b1.skip(n2);
            let (g3, n3) = <u32 as NetworkAdapter>::dec(b2)->Ok_0;
            lemma_skip_skip(b, n1, n2);
            assert(b2 == b.skip(n1 + n2));
            lemma_skip_skip(b, n1 + n2, n3);
            assert(b2.skip(n3) == b.skip(n1 + n2 + n3));
        }
        Ok(AccountList { account_list_id: x1, account_ids: x2, lock_action: x3 })
    }

    fn put_be(self, out: &mut Vec<u8>) -> (res: Result<(), Error>) {
        let ghost m = self.model();
        let AccountList { account_list_id, account_ids, lock_action } = self;
        let ghost e1 = <u32 as NetworkAdapter>::enc_model(m.account_list_id);
        let ghost e2 = <RLE<Vec<RLE<String, u16>>, u16> as NetworkAdapter>::enc_model(m.account_ids);
        let ghost e3 = <u32 as NetworkAdapter>::enc_model(m.lock_action);
        let ghost p1 = e1;
        let ghost p2 = p1 + e2;
        let ghost p3 = p2 + e3;
        let mut tmp: Vec<u8> = Vec::new();
        let ghost o0 = tmp@;
        match account_list_id.put_be(&mut tmp) {
            Ok(()) => {},
            Err(e) => {
                return Err(e);
            },
        };
        let ghost o1 = tmp@;
        proof {
            assert(account_list_id.model() == m.account_list_id);
            assert(o1 == o0 + p1);
        }
        match account_ids.put_be(&mut tmp) {
            Ok(()) => {},
            Err(e) => {
                return Err(e);
            },
        };
        let ghost o2 = tmp@;
        proof {
            assert(account_ids.model() == m.account_ids);
            lemma_seq_assoc(o0, p1, e2);
            assert(o2 == o0 + p2);
        }
        match lock_action.put_be(&mut tmp) {
            Ok(()) => {},
            Err(e) => {
                return Err(e);
            },
        };
        let ghost o3 = tmp@;
        proof {
            assert(lock_action.model() == m.lock_action);
            lemma_seq_assoc(o0, p2, e3);
            assert(o3 == o0 + p3);
        }
        out.append(&mut tmp);
        proof {
            assert(Self::enc_model(m) == p3);
            assert(o0 + p3 =~= p3);
            assert(out@ == old(out)@ + Self::enc_model(m));
        }
        Ok(())
    }

    proof fn lemma_dec_enc(m: AccountListModel, rest: Seq<u8>) {
        let e1 = <u32 as NetworkAdapter>::enc_model(m.account_list_id);
        let e2 = <RLE<Vec<RLE<String, u16>>, u16> as NetworkAdapter>::enc_model(m.account_ids);
        let e3 = <u32 as NetworkAdapter>::enc_model(m.lock_action);
        let p1 = e1;
        let p2 = p1 + e2;
        let p3 = p2 + e3;
        assert(Self::enc_model(m) == p3);
        let r3 = rest;
        let r2 = e3 + r3;
        let r1 = e2 + r2;
        let b = Self::enc_model(m) + rest;
        lemma_seq_assoc(p2, e3, r3);
        assert(p3 + r3 == p2 + r2);
        lemma_seq_assoc(p1, e2, r2);
        assert(p2 + r2 == p1 + r1);
        assert(b == e1 + r1);
        <u32 as NetworkAdapter>::lemma_dec_enc(m.account_list_id, r1);
        <RLE<Vec<RLE<String, u16>>, u16> as NetworkAdapter>::lemma_dec_enc(m.account_ids, r2);
        <u32 as NetworkAdapter>::lemma_dec_enc(m.lock_action, r3);
        let c1 = b.skip(e1.len() as int);
        lemma_skip_concat(e1, r1);
        assert(c1 == r1);
        let c2 = c1.skip(e2.len() as int);
        lemma_skip_concat(e2, r2);
        assert(c2 == r2);
        assert(Self::enc_model(m).len() == e1.len() + e2.len() + e3.len());
        assert(AccountListModel { account_list_id: m.account_list_id, account_ids: m.account_ids, lock_action: m.lock_action } =~= m);
    }

    proof fn lemma_enc_dec(b: Seq<u8>, m: AccountListModel, n: int) {
        let (g1, n1) = <u32 as NetworkAdapter>::dec(b)->Ok_0;
        <u32 as NetworkAdapter>::lemma_enc_dec(b, g1, n1);
        let b1 = b.skip(n1);
        let (g2, n2) = <RLE<Vec<RLE<String, u16>>, u16> as NetworkAdapter>::dec(b1)->Ok_0;
        <RLE<Vec<RLE<String, u16>>, u16> as NetworkAdapter>::lemma_enc_dec(b1, g2, n2);
        let b2 = b1.skip(n2);
        let (g3, n3) = <u32 as NetworkAdapter>::dec(b2)->Ok_0;
        <u32 as NetworkAdapter>::lemma_enc_dec(b2, g3, n3);
        lemma_skip_skip(b, n1, n2);
        assert(b2 == b.skip(n1 + n2));
        assert(n == n1 + n2 + n3);
        assert(m.account_list_id == g1);
        assert(m.account_ids == g2);
        assert(m.lock_action == g3);
        if Self::canon(b) {
            let s1 = n1;
            let s2 = s1 + n2;
            let s3 = s2 + n3;
            let q1 = <u32 as NetworkAdapter>::enc_model(m.account_list_id);
            assert(q1 == b.take(s1));
            lemma_take_concat(b, s1, n2);
            let q2 = q1 + <RLE<Vec<RLE<String, u16>>, u16> as NetworkAdapter>::enc_model(m.account_ids);
            assert(q2 == b.take(s2));
            lemma_take_concat(b, s2, n3);
            let q3 = q2 + <u32 as NetworkAdapter>::enc_model(m.lock_action);
            assert(q3 == b.take(s3));
            assert(Self::enc_model(m) == q3);
            assert(Self::enc_model(m) == b.take(n));
        }
    }
}

#[verifier::ext_equal]
#[derive(Debug, PartialEq, Clone)]
pub struct ActivePetUpdate {
    pub instance_id: u32,
}

impl NetworkAdapter for ActivePetUpdate {
    type Model = ActivePetUpdate;

    open spec fn model(self) -> ActivePetUpdate {
        self
    }

    open spec fn enc_model(m: ActivePetUpdate) -> Seq<u8> {
        <u32 as NetworkAdapter>::enc_model(m.instance_id)
    }

    open spec fn valid_model(m: ActivePetUpdate) -> bool {
        <u32 as NetworkAdapter>::valid_model(m.instance_id)
    }

    closed spec fn dec(b: Seq<u8>) -> Result<(ActivePetUpdate, int), Error> {
        match <u32 as NetworkAdapter>::dec(b) {
            Ok((g1, n1)) => {
                Ok((ActivePetUpdate { instance_id: g1 }, n1))
            },
            Err(e) => Err(e),
        }
    }

    closed spec fn canon(b: Seq<u8>) -> bool {
        match <u32 as NetworkAdapter>::dec(b) {
            Ok((g1, n1)) => <u32 as NetworkAdapter>::canon(b) && {
                true
            },
            Err(e) => true,
        }
    }

    fn get_be(r: &mut Reader) -> (res: Result<ActivePetUpdate, Error>) {
        let ghost b = old(r).remaining_bytes();
        let save = r.position();
        let x1 = match <u32 as NetworkAdapter>::get_be(r) {
            Ok(v) => v,
            Err(e) => {
                r.seek(save);
                return Err(e);
            },
        };
        proof {
            let (g1, n1) = <u32 as NetworkAdapter>::dec(b)->Ok_0;
        }
        Ok(ActivePetUpdate { instance_id: x1 })
    }

    fn put_be(self, out: &mut Vec<u8>) -> (res: Result<(), Error>) {
        let ghost m = self.model();
        let ActivePetUpdate { instance_id } = self;
        let ghost e1 = <u32 as NetworkAdapter>::enc_model(m.instance_id);
        let ghost p1 = e1;
        let mut tmp: Vec<u8> = Vec::new();
        let ghost o0 = tmp@;
        match instance_id.put_be(&mut tmp) {
            Ok(()) => {},
            Err(e) => {
                return Err(e);
            },
        };
        let ghost o1 = tmp@;
        proof {
            assert(instance_id == m.instance_id);
            assert(o1 == o0 + p1);
        }
        out.append(&mut tmp);
        proof {
            assert(Self::enc_model(m) == p1);
            assert(o0 + p1 =~= p1);
            assert(out@ == old(out)@ + Self::enc_model(m));
        }
        Ok(())
    }

    proof fn lemma_dec_enc(m: ActivePetUpdate, rest: Seq<u8>) {
        let e1 = <u32 as NetworkAdapter>::enc_model(m.instance_id);
        let p1 = e1;
        assert(Self::enc_model(m) == p1);
        let r1 = rest;
        let b = Self::enc_model(m) + rest;
        assert(b == e1 + r1);
        <u32 as NetworkAdapter>::lemma_dec_enc(m.instance_id, r1);
        assert(Self::enc_model(m).len() == e1.len());
        assert(ActivePetUpdate { instance_id: m.instance_id } =~= m);
    }

    proof fn lemma_enc_dec(b: Seq<u8>, m: ActivePetUpdate, n: int) {
        let (g1, n1) = <u32 as NetworkAdapter>::dec(b)->Ok_0;
        <u32 as NetworkAdapter>::lemma_enc_dec(b, g1, n1);
        assert(n == n1);
        assert(m.instance_id == g1);
        if Self::canon(b) {
            let s1 = n1;
            let q1 = <u32 as NetworkAdapter>::enc_model(m.instance_id);
            assert(q1 == b.take(s1));
            assert(Self::enc_model(m) == q1);
            assert(Self::enc_model(m) == b.take(n));
        }
    }
}

#[verifier::ext_equal]
#[derive(Debug, PartialEq, Clone)]
pub struct AllyShoot {
    pub bullet_id: u8,
    pub owner_id: u32,
    pub container_type: u16,
    pub angle: F32Bits,
}

impl NetworkAdapter for AllyShoot {
    type Model = AllyShoot;

    open spec fn model(self) -> AllyShoot {
        self
    }

    open spec fn enc_model(m: AllyShoot) -> Seq<u8> {
        <u8 as NetworkAdapter>::enc_model(m.bullet_id) + <u32 as NetworkAdapter>::enc_model(m.owner_id) + <u16 as NetworkAdapter>::enc_model(m.container_type) + <F32Bits as NetworkAdapter>::enc_model(m.angle)
    }

    open spec fn valid_model(m: AllyShoot) -> bool {
        <u8 as NetworkAdapter>::valid_model(m.bullet_id) && <u32 as NetworkAdapter>::valid_model(m.owner_id) && <u16 as NetworkAdapter>::valid_model(m.container_type) && <F32Bits as NetworkAdapter>::valid_model(m.angle)
    }

    closed spec fn dec(b: Seq<u8>) -> Result<(AllyShoot, int), Error> {
        match <u8 as NetworkAdapter>::dec(b) {
            Ok((g1, n1)) => {
                let b1 = b.skip(n1);
                match <u32 as NetworkAdapter>::dec(b1) {
                    Ok((g2, n2)) => {
                        let b2 = b1.skip(n2);
                        match <u16 as NetworkAdapter>::dec(b2) {
                            Ok((g3, n3)) => {
                                let b3 = b2.skip(n3);
                                match <F32Bits as NetworkAdapter>::dec(b3) {
                                    Ok((g4, n4)) => {
                                        Ok((AllyShoot { bullet_id: g1, owner_id: g2, container_type: g3, angle: g4 }, n1 + n2 + n3 + n4))
                                    },
                                    Err(e) => Err(e),
                                }
                            },
                            Err(e) => Err(e),
                        }
                    },
                    Err(e) => Err(e),
                }
            },
            Err(e) => Err(e),
        }
    }

    closed spec fn canon(b: Seq<u8>) -> bool {
        match <u8 as NetworkAdapter>::dec(b) {
            Ok((g1, n1)) => <u8 as NetworkAdapter>::canon(b) && {
                let b1 = b.skip(n1);
                match <u32 as NetworkAdapter>::dec(b1) {
                    Ok((g2, n2)) => <u32 as NetworkAdapter>::canon(b1) && {
                        let b2 = b1.skip(n2);
                        match <u16 as NetworkAdapter>::dec(b2) {
                            Ok((g3, n3)) => <u16 as NetworkAdapter>::canon(b2) && {
                                let b3 = b2.skip(n3);
                                match <F32Bits as NetworkAdapter>::dec(b3) {
                                    Ok((g4, n4)) => <F32Bits as NetworkAdapter>::canon(b3) && {
                                        true
                                    },
                                    Err(e) => true,
                                }
                            },
                            Err(e) => true,
                        }
                    },
                    Err(e) => true,
                }
            },
            Err(e) => true,
        }
    }

    fn get_be(r: &mut Reader) -> (res: Result<AllyShoot, Error>) {
        let ghost b = old(r).remaining_bytes();
        let save = r.position();
        let x1 = match <u8 as NetworkAdapter>::get_be(r) {
            Ok(v) => v,
            Err(e) => {
                r.seek(save);
                return Err(e);
            },
        };
        let x2 = match <u32 as NetworkAdapter>::get_be(r) {
            Ok(v) => v,
            Err(e) => {
                r.seek(save);
                return Err(e);
            },
        };
        let x3 = match <u16 as NetworkAdapter>::get_be(r) {
            Ok(v) => v,
            Err(e) => {
                r.seek(save);
                return Err(e);
            },
        };
        let x4 = match <F32Bits as NetworkAdapter>::get_be(r) {
            Ok(v) => v,
            Err(e) => {
                r.seek(save);
                return Err(e);
            },
        };
        proof {
            let (g1, n1) = <u8 as NetworkAdapter>::dec(b)->Ok_0;
            let b1 = b.skip(n1);
            let (g2, n2) = <u32 as NetworkAdapter>::dec(b1)->Ok_0;
            let b2 = b1.skip(n2);
            let (g3, n3) = <u16 as NetworkAdapter>::dec(b2)->Ok_0;
            let b3 = b2.skip(n3);
            let (g4, n4) = <F32Bits as NetworkAdapter>::dec(b3)->Ok_0;
            lemma_skip_skip(b, n1, n2);
            assert(b2 == b.skip(n1 + n2));
            lemma_skip_skip(b, n1 + n2, n3);
            assert(b3 == b.skip(n1 + n2 + n3));
            lemma_skip_skip(b, n1 + n2 + n3, n4);
            assert(b3.skip(n4) == b.skip(n1 + n2 + n3 + n4));
        }
        Ok(AllyShoot { bullet_id: x1, owner_id: x2, container_type: x3, angle: x4 })
    }

    fn put_be(self, out: &mut Vec<u8>) -> (res: Result<(), Error>) {
        let ghost m = self.model();
        let AllyShoot { bullet_id, owner_id, container_type, angle } = self;
        let ghost e1 = <u8 as NetworkAdapter>::enc_model(m.bullet_id);
        let ghost e2 = <u32 as NetworkAdapter>::enc_model(m.owner_id);
        let ghost e3 = <u16 as NetworkAdapter>::enc_model(m.container_type);
        let ghost e4 = <F32Bits as NetworkAdapter>::enc_model(m.angle);
        let ghost p1 = e1;
        let ghost p2 = p1 + e2;
        let ghost p3 = p2 + e3;
        let ghost p4 = p3 + e4;
        let mut tmp: Vec<u8> = Vec::new();
        let ghost o0 = tmp@;
        match bullet_id.put_be(&mut tmp) {
            Ok(()) => {},
            Err(e) => {
                return Err(e);
            },
        };
        let ghost o1 = tmp@;
        proof {
            assert(bullet_id == m.bullet_id);
            assert(o1 == o0 + p1);
        }
        match owner_id.put_be(&mut tmp) {
            Ok(()) => {},
            Err(e) => {
                return Err(e);
            },
        };
        let ghost o2 = tmp@;
        proof {
            assert(owner_id == m.owner_id);
            lemma_seq_assoc(o0, p1, e2);
            assert(o2 == o0 + p2);
        }
        match container_type.put_be(&mut tmp) {
            Ok(()) => {},
            Err(e) => {
                return Err(e);
            },
        };
        let ghost o3 = tmp@;
        proof {
            assert(container_type == m.container_type);
            lemma_seq_assoc(o0, p2, e3);
            assert(o3 == o0 + p3);
        }
        match angle.put_be(&mut tmp) {
            Ok(()) => {},
            Err(e) => {
                return Err(e);
            },
        };
        let ghost o4 = tmp@;
        proof {
            assert(angle == m.angle);
            lemma_seq_assoc(o0, p3, e4);
            assert(o4 == o0 + p4);
        }
        out.append(&mut tmp);
        proof {
            assert(Self::enc_model(m) == p4);
            assert(o0 + p4 =~= p4);
            assert(out@ == old(out)@ + Self::enc_model(m));
        }
        Ok(())
    }

    proof fn lemma_dec_enc(m: AllyShoot, rest: Seq<u8>) {
        let e1 = <u8 as NetworkAdapter>::enc_model(m.bullet_id);
        let e2 = <u32 as NetworkAdapter>::enc_model(m.owner_id);
        let e3 = <u16 as NetworkAdapter>::enc_model(m.container_type);
        let e4 = <F32Bits as NetworkAdapter>::enc_model(m.angle);
        let p1 = e1;
        let p2 = p1 + e2;
        let p3 = p2 + e3;
        let p4 = p3 + e4;
        assert(Self::enc_model(m) == p4);
        let r4 = rest;
        let r3 = e4 + r4;
        let r2 = e3 + r3;
        let r1 = e2 + r2;
        let b = Self::enc_model(m) + rest;
        lemma_seq_assoc(p3, e4, r4);
        assert(p4 + r4 == p3 + r3);
        lemma_seq_assoc(p2, e3, r3);
        assert(p3 + r3 == p2 + r2);
        lemma_seq_assoc(p1, e2, r2);
        assert(p2 + r2 == p1 + r1);
        assert(b == e1 + r1);
        <u8 as NetworkAdapter>::lemma_dec_enc(m.bullet_id, r1);
        <u32 as NetworkAdapter>::lemma_dec_enc(m.owner_id, r2);
        <u16 as NetworkAdapter>::lemma_dec_enc(m.container_type, r3);
        <F32Bits as NetworkAdapter>::lemma_dec_enc(m.angle, r4);
        let c1 = b.skip(e1.len() as int);
        lemma_skip_concat(e1, r1);
        assert(c1 == r1);
        let c2 = c1.skip(e2.len() as int);
        lemma_skip_concat(e2, r2);
        assert(c2 == r2);
        let c3 = c2.skip(e3.len() as int);
        lemma_skip_concat(e3, r3);
        assert(c3 == r3);
        assert(Self::enc_model(m).len() == e1.len() + e2.len() + e3.len() + e4.len());
        assert(AllyShoot { bullet_id: m.bullet_id, owner_id: m.owner_id, container_type: m.container_type, angle: m.angle } =~= m);
    }

    proof fn lemma_enc_dec(b: Seq<u8>, m: AllyShoot, n: int) {
        let (g1, n1) = <u8 as NetworkAdapter>::dec(b)->Ok_0;
        <u8 as NetworkAdapter>::lemma_enc_dec(b, g1, n1);
        let b1 = b.skip(n1);
        let (g2, n2) = <u32 as NetworkAdapter>::dec(b1)->Ok_0;
        <u32 as NetworkAdapter>::lemma_enc_dec(b1, g2, n2);
        let b2 = b1.skip(n2);
        let (g3, n3) = <u16 as NetworkAdapter>::dec(b2)->Ok_0;
        <u16 as NetworkAdapter>::lemma_enc_dec(b2, g3, n3);
        let b3 = b2.skip(n3);
        let (g4, n4) = <F32Bits as NetworkAdapter>::dec(b3)->Ok_0;
        <F32Bits as NetworkAdapter>::lemma_enc_dec(b3, g4, n4);
        lemma_skip_skip(b, n1, n2);
        assert(b2 == b.skip(n1 + n2));
        lemma_skip_skip(b, n1 + n2, n3);
        assert(b3 == b.skip(n1 + n2 + n3));
        assert(n == n1 + n2 + n3 + n4);
        assert(m.bullet_id == g1);
        assert(m.owner_id == g2);
        assert(m.container_type == g3);
        assert(m.angle == g4);
        if Self::canon(b) {
            let s1 = n1;
            let s2 = s1 + n2;
            let s3 = s2 + n3;
            let s4 = s3 + n4;
            let q1 = <u8 as NetworkAdapter>::enc_model(m.bullet_id);
            assert(q1 == b.take(s1));
            lemma_take_concat(b, s1, n2);
            let q2 = q1 + <u32 as NetworkAdapter>::enc_model(m.owner_id);
            assert(q2 == b.take(s2));
            lemma_take_concat(b, s2, n3);
            let q3 = q2 + <u16 as NetworkAdapter>::enc_model(m.container_type);
            assert(q3 == b.take(s3));
            lemma_take_concat(b, s3, n4);
            let q4 = q3 + <F32Bits as NetworkAdapter>::enc_model(m.angle);
            assert(q4 == b.take(s4));
            assert(Self::enc_model(m) == q4);
            assert(Self::enc_model(m) == b.take(n));
        }
    }
}

#[verifier::ext_equal]
#[derive(Debug, PartialEq, Clone)]
pub struct Aoe {
    pub pos: WorldPosData,
    pub radius: F32Bits,
    pub damage: u16,
    pub effect: u8,
    pub duration: F32Bits,
    pub orig_type: u16,
    pub color: u32,
    pub armor_pierce: bool,
}

impl NetworkAdapter for Aoe {
    type Model = Aoe;

    open spec fn model(self) -> Aoe {
        self
    }

    open spec fn enc_model(m: Aoe) -> Seq<u8> {
        <WorldPosData as NetworkAdapter>::enc_model(m.pos) + <F32Bits as NetworkAdapter>::enc_model(m.radius) + <u16 as NetworkAdapter>::enc_model(m.damage) + <u8 as NetworkAdapter>::enc_model(m.effect) + <F32Bits as NetworkAdapter>::enc_model(m.duration) + <u16 as NetworkAdapter>::enc_model(m.orig_type) + <u32 as NetworkAdapter>::enc_model(m.color) + <bool as NetworkAdapter>::enc_model(m.armor_pierce)
    }

    open spec fn valid_model(m: Aoe) -> bool {
        <WorldPosData as NetworkAdapter>::valid_model(m.pos) && <F32Bits as NetworkAdapter>::valid_model(m.radius) && <u16 as NetworkAdapter>::valid_model(m.damage) && <u8 as NetworkAdapter>::valid_model(m.effect) && <F32Bits as NetworkAdapter>::valid_model(m.duration) && <u16 as NetworkAdapter>::valid_model(m.orig_type) && <u32 as NetworkAdapter>::valid_model(m.color) && <bool as NetworkAdapter>::valid_model(m.armor_pierce)
    }

    closed spec fn dec(b: Seq<u8>) -> Result<(Aoe, int), Error> {
        match <WorldPosData as NetworkAdapter>::dec(b) {
            Ok((g1, n1)) => {
                let b1 = b.skip(n1);
                match <F32Bits as NetworkAdapter>::dec(b1) {
                    Ok((g2, n2)) => {
                        let b2 = b1.skip(n2);
                        match <u16 as NetworkAdapter>::dec(b2) {
                            Ok((g3, n3)) => {
                                let b3 = b2.skip(n3);
                                match <u8 as NetworkAdapter>::dec(b3) {
                                    Ok((g4, n4)) => {
                                        let b4 = b3.skip(n4);
                                        match <F32Bits as NetworkAdapter>::dec(b4) {
                                            Ok((g5, n5)) => {
                                                let b5 = b4.skip(n5);
                                                match <u16 as NetworkAdapter>::dec(b5) {
                                                    Ok((g6, n6)) => {
                                                        let b6 = b5.skip(n6);
                                                        match <u32 as NetworkAdapter>::dec(b6) {
                                                            Ok((g7, n7)) => {
                                                                let b7 = b6.skip(n7);
                                                                match <bool as NetworkAdapter>::dec(b7) {
                                                                    Ok((g8, n8)) => {
                                                                        Ok((Aoe { pos: g1, radius: g2, damage: g3, effect: g4, duration: g5, orig_type: g6, color: g7, armor_pierce: g8 }, n1 + n2 + n3 + n4 + n5 + n6 + n7 + n8))
                                                                    },
                                                                    Err(e) => Err(e),
                                                                }
                                                            },
                                                            Err(e) => Err(e),
                                                        }
                                                    },
                                                    Err(e) => Err(e),
                                                }
                                            },
                                            Err(e) => Err(e),
                                        }
                                    },
                                    Err(e) => Err(e),
                                }
                            },
                            Err(e) => Err(e),
                        }
                    },
                    Err(e) => Err(e),
                }
            },
            Err(e) => Err(e),
        }
    }

    closed spec fn canon(b: Seq<u8>) -> bool {
        match <WorldPosData as NetworkAdapter>::dec(b) {
            Ok((g1, n1)) => <WorldPosData as NetworkAdapter>::canon(b) && {
                let b1 = b.skip(n1);
                match <F32Bits as NetworkAdapter>::dec(b1) {
                    Ok((g2, n2)) => <F32Bits as NetworkAdapter>::canon(b1) && {
                        let b2 = b1.skip(n2);
                        match <u16 as NetworkAdapter>::dec(b2) {
                            Ok((g3, n3)) => <u16 as NetworkAdapter>::canon(b2) && {
                                let b3 = b2.skip(n3);
                                match <u8 as NetworkAdapter>::dec(b3) {
                                    Ok((g4, n4)) => <u8 as NetworkAdapter>::canon(b3) && {
                                        let b4 = b3.skip(n4);
                                        match <F32Bits as NetworkAdapter>::dec(b4) {
                                            Ok((g5, n5)) => <F32Bits as NetworkAdapter>::canon(b4) && {
                                                let b5 = b4.skip(n5);
                                                match <u16 as NetworkAdapter>::dec(b5) {
                                                    Ok((g6, n6)) => <u16 as NetworkAdapter>::canon(b5) && {
                                                        let b6 = b5.skip(n6);
                                                        match <u32 as NetworkAdapter>::dec(b6) {
                                                            Ok((g7, n7)) => <u32 as NetworkAdapter>::canon(b6) && {
                                                                let b7 = b6.skip(n7);
                                                                match <bool as NetworkAdapter>::dec(b7) {
                                                                    Ok((g8, n8)) => <bool as NetworkAdapter>::canon(b7) && {
                                                                        true
                                                                    },
                                                                    Err(e) => true,
                                                                }
                                                            },
                                                            Err(e) => true,
                                                        }
                                                    },
                                                    Err(e) => true,
                                                }
                                            },
                                            Err(e) => true,
                                        }
                                    },
                                    Err(e) => true,
                                }
                            },
                            Err(e) => true,
                        }
                    },
                    Err(e) => true,
                }
            },
            Err(e) => true,
        }
    }

    #[verifier::rlimit(100)]
    #[verifier::spinoff_prover]
    fn get_be(r: &mut Reader) -> (res: Result<Aoe, Error>) {
        let ghost b = old(r).remaining_bytes();
        let save = r.position();
        let x1 = match <WorldPosData as NetworkAdapter>::get_be(r) {
            Ok(v) => v,
            Err(e) => {
                r.seek(save);
                return Err(e);
            },
        };
        let x2 = match <F32Bits as NetworkAdapter>::get_be(r) {
            Ok(v) => v,
            Err(e) => {
                r.seek(save);
                return Err(e);
            },
        };
        let x3 = match <u16 as NetworkAdapter>::get_be(r) {
            Ok(v) => v,
            Err(e) => {
                r.seek(save);
                return Err(e);
            },
        };
        let x4 = match <u8 as NetworkAdapter>::get_be(r) {
            Ok(v) => v,
            Err(e) => {
                r.seek(save);
                return Err(e);
            },
        };
        let x5 = match <F32Bits as NetworkAdapter>::get_be(r) {
            Ok(v) => v,
            Err(e) => {
                r.seek(save);
                return Err(e);
            },
        };
        let x6 = match <u16 as NetworkAdapter>::get_be(r) {
            Ok(v) => v,
            Err(e) => {
                r.seek(save);
                return Err(e);
            },
        };
        let x7 = match <u32 as NetworkAdapter>::get_be(r) {
            Ok(v) => v,
            Err(e) => {
                r.seek(save);
                return Err(e);
            },
        };
        let x8 = match <bool as NetworkAdapter>::get_be(r) {
            Ok(v) => v,
            Err(e) => {
                r.seek(save);
                return Err(e);
            },
        };
        proof {
            let (g1, n1) = <WorldPosData as NetworkAdapter>::dec(b)->Ok_0;
            let b1 = b.skip(n1);
            let (g2, n2) = <F32Bits as NetworkAdapter>::dec(b1)->Ok_0;
            let b2 = b1.skip(n2);
            let (g3, n3) = <u16 as NetworkAdapter>::dec(b2)->Ok_0;
            let b3 = b2.skip(n3);
            let (g4, n4) = <u8 as NetworkAdapter>::dec(b3)->Ok_0;
            let b4 = b3.skip(n4);
            let (g5, n5) = <F32Bits as NetworkAdapter>::dec(b4)->Ok_0;
            let b5 = b4.skip(n5);
            let (g6, n6) = <u16 as NetworkAdapter>::dec(b5)->Ok_0;
            let b6 = b5.skip(n6);
            let (g7, n7) = <u32 as NetworkAdapter>::dec(b6)->Ok_0;
            let b7 = b6.skip(n7);
            let (g8, n8) = <bool as NetworkAdapter>::dec(b7)->Ok_0;
            lemma_skip_skip(b, n1, n2);
            assert(b2 == b.skip(n1 + n2));
            lemma_skip_skip(b, n1 + n2, n3);
            assert(b3 == b.skip(n1 + n2 + n3));
            lemma_skip_skip(b, n1 + n2 + n3, n4);
            assert(b4 == b.skip(n1 + n2 + n3 + n4));
            lemma_skip_skip(b, n1 + n2 + n3 + n4, n5);
            assert(b5 == b.skip(n1 + n2 + n3 + n4 + n5));
            lemma_skip_skip(b, n1 + n2 + n3 + n4 + n5, n6);
            assert(b6 == b.skip(n1 + n2 + n3 + n4 + n5 + n6));
            lemma_skip_skip(b, n1 + n2 + n3 + n4 + n5 + n6, n7);
            assert(b7 == b.skip(n1 + n2 + n3 + n4 + n5 + n6 + n7));
            lemma_skip_skip(b, n1 + n2 + n3 + n4 + n5 + n6 + n7, n8);
            assert(b7.skip(n8) == b.skip(n1 + n2 + n3 + n4 + n5 + n6 + n7 + n8));
        }
        Ok(Aoe { pos: x1, radius: x2, damage: x3, effect: x4, duration: x5, orig_type: x6, color: x7, armor_pierce: x8 })
    }

    #[verifier::rlimit(100)]
    #[verifier::spinoff_prover]
    fn put_be(self, out: &mut Vec<u8>) -> (res: Result<(), Error>) {
        let ghost m = self.model();
        let Aoe { pos, radius, damage, effect, duration, orig_type, color, armor_pierce } = self;
        let ghost e1 = <WorldPosData as NetworkAdapter>::enc_model(m.pos);
        let ghost e2 = <F32Bits as NetworkAdapter>::enc_model(m.radius);
        let ghost e3 = <u16 as NetworkAdapter>::enc_model(m.damage);
        let ghost e4 = <u8 as NetworkAdapter>::enc_model(m.effect);
        let ghost e5 = <F32Bits as NetworkAdapter>::enc_model(m.duration);
        let ghost e6 = <u16 as NetworkAdapter>::enc_model(m.orig_type);
        let ghost e7 = <u32 as NetworkAdapter>::enc_model(m.color);
        let ghost e8 = <bool as NetworkAdapter>::enc_model(m.armor_pierce);
        let ghost p1 = e1;
        let ghost p2 = p1 + e2;
        let ghost p3 = p2 + e3;
        let ghost p4 = p3 + e4;
        let ghost p5 = p4 + e5;
        let ghost p6 = p5 + e6;
        let ghost p7 = p6 + e7;
        let ghost p8 = p7 + e8;
        let mut tmp: Vec<u8> = Vec::new();
        let ghost o0 = tmp@;
        match pos.put_be(&mut tmp) {
            Ok(()) => {},
            Err(e) => {
                return Err(e);
            },
        };
        let ghost o1 = tmp@;
        proof {
            assert(pos == m.pos);
            assert(o1 == o0 + p1);
        }
        match radius.put_be(&mut tmp) {
            Ok(()) => {},
            Err(e) => {
                return Err(e);
            },
        };
        let ghost o2 = tmp@;
        proof {
            assert(radius == m.radius);
            lemma_seq_assoc(o0, p1, e2);
            assert(o2 == o0 + p2);
        }
        match damage.put_be(&mut tmp) {
            Ok(()) => {},
            Err(e) => {
                return Err(e);
            },
        };
        let ghost o3 = tmp@;
        proof {
            assert(damage == m.damage);
            lemma_seq_assoc(o0, p2, e3);
            assert(o3 == o0 + p3);
        }
        match effect.put_be(&mut tmp) {
            Ok(()) => {},
            Err(e) => {
                return Err(e);
            },
        };
        let ghost o4 = tmp@;
        proof {
            assert(effect == m.effect);
            lemma_seq_assoc(o0, p3, e4);
            assert(o4 == o0 + p4);
        }
        match duration.put_be(&mut tmp) {
            Ok(()) => {},
            Err(e) => {
                return Err(e);
            },
        };
        let ghost o5 = tmp@;
        proof {
            assert(duration == m.duration);
            lemma_seq_assoc(o0, p4, e5);
            assert(o5 == o0 + p5);
        }
        match orig_type.put_be(&mut tmp) {
            Ok(()) => {},
            Err(e) => {
                return Err(e);
            },
        };
        let ghost o6 = tmp@;
        proof {
            assert(orig_type == m.orig_type);
            lemma_seq_assoc(o0, p5, e6);
            assert(o6 == o0 + p6);
        }
        match color.put_be(&mut tmp) {
            Ok(()) => {},
            Err(e) => {
                return Err(e);
            },
        };
        let ghost o7 = tmp@;
        proof {
            assert(color == m.color);
            lemma_seq_assoc(o0, p6, e7);
            assert(o7 == o0 + p7);
        }
        match armor_pierce.put_be(&mut tmp) {
            Ok(()) => {},
            Err(e) => {
                return Err(e);
            },
        };
        let ghost o8 = tmp@;
        proof {
            assert(armor_pierce == m.armor_pierce);
            lemma_seq_assoc(o0, p7, e8);
            assert(o8 == o0 + p8);
        }
        out.append(&mut tmp);
        proof {
            assert(Self::enc_model(m) == p8);
            assert(o0 + p8 =~= p8);
            assert(out@ == old(out)@ + Self::enc_model(m));
        }
        Ok(())
    }

    #[verifier::rlimit(100)]
    #[verifier::spinoff_prover]
    proof fn lemma_dec_enc(m: Aoe, rest: Seq<u8>) {
        let e1 = <WorldPosData as NetworkAdapter>::enc_model(m.pos);
        let e2 = <F32Bits as NetworkAdapter>::enc_model(m.radius);
        let e3 = <u16 as NetworkAdapter>::enc_model(m.damage);
        let e4 = <u8 as NetworkAdapter>::enc_model(m.effect);
        let e5 = <F32Bits as NetworkAdapter>::enc_model(m.duration);
        let e6 = <u16 as NetworkAdapter>::enc_model(m.orig_type);
        let e7 = <u32 as NetworkAdapter>::enc_model(m.color);
        let e8 = <bool as NetworkAdapter>::enc_model(m.armor_pierce);
        let p1 = e1;
        let p2 = p1 + e2;
        let p3 = p2 + e3;
        let p4 = p3 + e4;
        let p5 = p4 + e5;
        let p6 = p5 + e6;
        let p7 = p6 + e7;
        let p8 = p7 + e8;
        assert(Self::enc_model(m) == p8);
        let r8 = rest;
        let r7 = e8 + r8;
        let r6 = e7 + r7;
        let r5 = e6 + r6;
        let r4 = e5 + r5;
        let r3 = e4 + r4;
        let r2 = e3 + r3;
        let r1 = e2 + r2;
        let b = Self::enc_model(m) + rest;
        lemma_seq_assoc(p7, e8, r8);
        assert(p8 + r8 == p7 + r7);
        lemma_seq_assoc(p6, e7, r7);
        assert(p7 + r7 == p6 + r6);
        lemma_seq_assoc(p5, e6, r6);
        assert(p6 + r6 == p5 + r5);
        lemma_seq_assoc(p4, e5, r5);
        assert(p5 + r5 == p4 + r4);
        lemma_seq_assoc(p3, e4, r4);
        assert(p4 + r4 == p3 + r3);
        lemma_seq_assoc(p2, e3, r3);
        assert(p3 + r3 == p2 + r2);
        lemma_seq_assoc(p1, e2, r2);
        assert(p2 + r2 == p1 + r1);
        assert(b == e1 + r1);
        <WorldPosData as NetworkAdapter>::lemma_dec_enc(m.pos, r1);
        <F32Bits as NetworkAdapter>::lemma_dec_enc(m.radius, r2);
        <u16 as NetworkAdapter>::lemma_dec_enc(m.damage, r3);
        <u8 as NetworkAdapter>::lemma_dec_enc(m.effect, r4);
        <F32Bits as NetworkAdapter>::lemma_dec_enc(m.duration, r5);
        <u16 as NetworkAdapter>::lemma_dec_enc(m.orig_type, r6);
        <u32 as NetworkAdapter>::lemma_dec_enc(m.color, r7);
        <bool as NetworkAdapter>::lemma_dec_enc(m.armor_pierce, r8);
        let c1 = b.skip(e1.len() as int);
        lemma_skip_concat(e1, r1);
        assert(c1 == r1);
        let c2 = c1.skip(e2.len() as int);
        lemma_skip_concat(e2, r2);
        assert(c2 == r2);
        let c3 = c2.skip(e3.len() as int);
        lemma_skip_concat(e3, r3);
        assert(c3 == r3);
        let c4 = c3.skip(e4.len() as int);
        lemma_skip_concat(e4, r4);
        assert(c4 == r4);
        let c5 = c4.skip(e5.len() as int);
        lemma_skip_concat(e5, r5);
        assert(c5 == r5);
        let c6 = c5.skip(e6.len() as int);
        lemma_skip_concat(e6, r6);
        assert(c6 == r6);
        let c7 = c6.skip(e7.len() as int);
        lemma_skip_concat(e7, r7);
        assert(c7 == r7);
        assert(Self::enc_model(m).len() == e1.len() + e2.len() + e3.len() + e4.len() + e5.len() + e6.len() + e7.len() + e8.len());
        assert(Aoe { pos: m.pos, radius: m.radius, damage: m.damage, effect: m.effect, duration: m.duration, orig_type: m.orig_type, color: m.color, armor_pierce: m.armor_pierce } =~= m);
    }

    #[verifier::rlimit(100)]
    #[verifier::spinoff_prover]
    proof fn lemma_enc_dec(b: Seq<u8>, m: Aoe, n: int) {
        let (g1, n1) = <WorldPosData as NetworkAdapter>::dec(b)->Ok_0;
        <WorldPosData as NetworkAdapter>::lemma_enc_dec(b, g1, n1);
        let b1 = b.skip(n1);
        let (g2, n2) = <F32Bits as NetworkAdapter>::dec(b1)->Ok_0;
        <F32Bits as NetworkAdapter>::lemma_enc_dec(b1, g2, n2);
        let b2 = b1.skip(n2);
        let (g3, n3) = <u16 as NetworkAdapter>::dec(b2)->Ok_0;
        <u16 as NetworkAdapter>::lemma_enc_dec(b2, g3, n3);
        let b3 = b2.skip(n3);
        let (g4, n4) = <u8 as NetworkAdapter>::dec(b3)->Ok_0;
        <u8 as NetworkAdapter>::lemma_enc_dec(b3, g4, n4);
        let b4 = b3.skip(n4);
        let (g5, n5) = <F32Bits as NetworkAdapter>::dec(b4)->Ok_0;
        <F32Bits as NetworkAdapter>::lemma_enc_dec(b4, g5, n5);
        let b5 = b4.skip(n5);
        let (g6, n6) = <u16 as NetworkAdapter>::dec(b5)->Ok_0;
        <u16 as NetworkAdapter>::lemma_enc_dec(b5, g6, n6);
        let b6 = b5.skip(n6);
        let (g7, n7) = <u32 as NetworkAdapter>::dec(b6)->Ok_0;
        <u32 as NetworkAdapter>::lemma_enc_dec(b6, g7, n7);
        let b7 = b6.skip(n7);
        let (g8, n8) = <bool as NetworkAdapter>::dec(b7)->Ok_0;
        <bool as NetworkAdapter>::lemma_enc_dec(b7, g8, n8);
        lemma_skip_skip(b, n1, n2);
        assert(b2 == b.skip(n1 + n2));
        lemma_skip_skip(b, n1 + n2, n3);
        assert(b3 == b.skip(n1 + n2 + n3));
        lemma_skip_skip(b, n1 + n2 + n3, n4);
        assert(b4 == b.skip(n1 + n2 + n3 + n4));
        lemma_skip_skip(b, n1 + n2 + n3 + n4, n5);
        assert(b5 == b.skip(n1 + n2 + n3 + n4 + n5));
        lemma_skip_skip(b, n1 + n2 + n3 + n4 + n5, n6);
        assert(b6 == b.skip(n1 + n2 + n3 + n4 + n5 + n6));
        lemma_skip_skip(b, n1 + n2 + n3 + n4 + n5 + n6, n7);
        assert(b7 == b.skip(n1 + n2 + n3 + n4 + n5 + n6 + n7));
        assert(n == n1 + n2 + n3 + n4 + n5 + n6 + n7 + n8);
        assert(m.pos == g1);
        assert(m.radius == g2);
        assert(m.damage == g3);
        assert(m.effect == g4);
        assert(m.duration == g5);
        assert(m.orig_type == g6);
        assert(m.color == g7);
        assert(m.armor_pierce == g8);
        if Self::canon(b) {
            let s1 = n1;
            let s2 = s1 + n2;
            let s3 = s2 + n3;
            let s4 = s3 + n4;
            let s5 = s4 + n5;
            let s6 = s5 + n6;
            let s7 = s6 + n7;
            let s8 = s7 + n8;
            let q1 = <WorldPosData as NetworkAdapter>::enc_model(m.pos);
            assert(q1 == b.take(s1));
            lemma_take_concat(b, s1, n2);
            let q2 = q1 + <F32Bits as NetworkAdapter>::enc_model(m.radius);
            assert(q2 == b.take(s2));
            lemma_take_concat(b, s2, n3);
            let q3 = q2 + <u16 as NetworkAdapter>::enc_model(m.damage);
            assert(q3 == b.take(s3));
            lemma_take_concat(b, s3, n4);
            let q4 = q3 + <u8 as NetworkAdapter>::enc_model(m.effect);
            assert(q4 == b.take(s4));
            lemma_take_concat(b, s4, n5);
            let q5 = q4 + <F32Bits as NetworkAdapter>::enc_model(m.duration);
            assert(q5 == b.take(s5));
            lemma_take_concat(b, s5, n6);
            let q6 = q5 + <u16 as NetworkAdapter>::enc_model(m.orig_type);
            assert(q6 == b.take(s6));
            lemma_take_concat(b, s6, n7);
            let q7 = q6 + <u32 as NetworkAdapter>::enc_model(m.color);
            assert(q7 == b.take(s7));
            lemma_take_concat(b, s7, n8);
            let q8 = q7 + <bool as NetworkAdapter>::enc_model(m.armor_pierce);
            assert(q8 == b.take(s8));
            assert(Self::enc_model(m) == q8);
            assert(Self::enc_model(m) == b.take(n));
        }
    }
}

#[verifier::ext_equal]
#[derive(Debug, PartialEq, Clone)]
pub struct ArenaDeath {
    pub cost: u32,
}

impl NetworkAdapter for ArenaDeath {
    type Model = ArenaDeath;

    open spec fn model(self) -> ArenaDeath {
        self
    }

    open spec fn enc_model(m: ArenaDeath) -> Seq<u8> {
        <u32 as NetworkAdapter>::enc_model(m.cost)
    }

    open spec fn valid_model(m: ArenaDeath) -> bool {
        <u32 as NetworkAdapter>::valid_model(m.cost)
    }

    closed spec fn dec(b: Seq<u8>) -> Result<(ArenaDeath, int), Error> {
        match <u32 as NetworkAdapter>::dec(b) {
            Ok((g1, n1)) => {
                Ok((ArenaDeath { cost: g1 }, n1))
            },
            Err(e) => Err(e),
        }
    }

    closed spec fn canon(b: Seq<u8>) -> bool {
        match <u32 as NetworkAdapter>::dec(b) {
            Ok((g1, n1)) => <u32 as NetworkAdapter>::canon(b) && {
                true
            },
            Err(e) => true,
        }
    }

    fn get_be(r: &mut Reader) -> (res: Result<ArenaDeath, Error>) {
        let ghost b = old(r).remaining_bytes();
        let save = r.position();
        let x1 = match <u32 as NetworkAdapter>::get_be(r) {
            Ok(v) => v,
            Err(e) => {
                r.seek(save);
                return Err(e);
            },
        };
        proof {
            let (g1, n1) = <u32 as NetworkAdapter>::dec(b)->Ok_0;
        }
        Ok(ArenaDeath { cost: x1 })
    }

    fn put_be(self, out: &mut Vec<u8>) -> (res: Result<(), Error>) {
        let ghost m = self.model();
        let ArenaDeath { cost } = self;
        let ghost e1 = <u32 as NetworkAdapter>::enc_model(m.cost);
        let ghost p1 = e1;
        let mut tmp: Vec<u8> = Vec::new();
        let ghost o0 = tmp@;
        match cost.put_be(&mut tmp) {
            Ok(()) => {},
            Err(e) => {
                return Err(e);
            },
        };
        let ghost o1 = tmp@;
        proof {
            assert(cost == m.cost);
            assert(o1 == o0 + p1);
        }
        out.append(&mut tmp);
        proof {
            assert(Self::enc_model(m) == p1);
            assert(o0 + p1 =~= p1);
            assert(out@ == old(out)@ + Self::enc_model(m));
        }
        Ok(())
    }

    proof fn lemma_dec_enc(m: ArenaDeath, rest: Seq<u8>) {
        let e1 = <u32 as NetworkAdapter>::enc_model(m.cost);
        let p1 = e1;
        assert(Self::enc_model(m) == p1);
        let r1 = rest;
        let b = Self::enc_model(m) + rest;
        assert(b == e1 + r1);
        <u32 as NetworkAdapter>::lemma_dec_enc(m.cost, r1);
        assert(Self::enc_model(m).len() == e1.len());
        assert(ArenaDeath { cost: m.cost } =~= m);
    }

    proof fn lemma_enc_dec(b: Seq<u8>, m: ArenaDeath, n: int) {
        let (g1, n1) = <u32 as NetworkAdapter>::dec(b)->Ok_0;
        <u32 as NetworkAdapter>::lemma_enc_dec(b, g1, n1);
        assert(n == n1);
        assert(m.cost == g1);
        if Self::canon(b) {
            let s1 = n1;
            let q1 = <u32 as NetworkAdapter>::enc_model(m.cost);
            assert(q1 == b.take(s1));
            assert(Self::enc_model(m) == q1);
            assert(Self::enc_model(m) == b.take(n));
        }
    }
}

#[verifier::ext_equal]
#[derive(Debug, PartialEq, Clone)]
pub struct BuyResult {
    pub result: u32,
    pub result_string: RLE<String, u16>,
}

/// The mathematical model of a decoded `BuyResult`.
#[verifier::ext_equal]
pub struct BuyResultModel {
    pub result: u32,
    pub result_string: Seq<char>,
}

impl NetworkAdapter for BuyResult {
    type Model = BuyResultModel;

    open spec fn model(self) -> BuyResultModel {
        BuyResultModel {
            result: self.result.model(),
            result_string: self.result_string.model(),
        }
    }

    open spec fn enc_model(m: BuyResultModel) -> Seq<u8> {
        <u32 as NetworkAdapter>::enc_model(m.result) + <RLE<String, u16> as NetworkAdapter>::enc_model(m.result_string)
    }

    open spec fn valid_model(m: BuyResultModel) -> bool {
        <u32 as NetworkAdapter>::valid_model(m.result) && <RLE<String, u16> as NetworkAdapter>::valid_model(m.result_string)
    }

    closed spec fn dec(b: Seq<u8>) -> Result<(BuyResultModel, int), Error> {
        match <u32 as NetworkAdapter>::dec(b) {
            Ok((g1, n1)) => {
                let b1 = b.skip(n1);
                match <RLE<String, u16> as NetworkAdapter>::dec(b1) {
                    Ok((g2, n2)) => {
                        Ok((BuyResultModel { result: g1, result_string: g2 }, n1 + n2))
                    },
                    Err(e) => Err(e),
                }
            },
            Err(e) => Err(e),
        }
    }

    closed spec fn canon(b: Seq<u8>) -> bool {
        match <u32 as NetworkAdapter>::dec(b) {
            Ok((g1, n1)) => <u32 as NetworkAdapter>::canon(b) && {
                let b1 = b.skip(n1);
                match <RLE<String, u16> as NetworkAdapter>::dec(b1) {
                    Ok((g2, n2)) => <RLE<String, u16> as NetworkAdapter>::canon(b1) && {
                        true
                    },
                    Err(e) => true,
                }
            },
            Err(e) => true,
        }
    }

    fn get_be(r: &mut Reader) -> (res: Result<BuyResult, Error>) {
        let ghost b = old(r).remaining_bytes();
        let save = r.position();
        let x1 = match <u32 as NetworkAdapter>::get_be(r) {
            Ok(v) => v,
            Err(e) => {
                r.seek(save);
                return Err(e);
            },
        };
        let x2 = match <RLE<String, u16> as NetworkAdapter>::get_be(r) {
            Ok(v) => v,
            Err(e) => {
                r.seek(save);
                return Err(e);
            },
        };
        proof {
            let (g1, n1) = <u32 as NetworkAdapter>::dec(b)->Ok_0;
            let b1 = b.skip(n1);
            let (g2, n2) = <RLE<String, u16> as NetworkAdapter>::dec(b1)->Ok_0;
            lemma_skip_skip(b, n1, n2);
            assert(b1.skip(n2) == b.skip(n1 + n2));
        }
        Ok(BuyResult { result: x1, result_string: x2 })
    }

    fn put_be(self, out: &mut Vec<u8>) -> (res: Result<(), Error>) {
        let ghost m = self.model();
        let BuyResult { result, result_string } = self;
        let ghost e1 = <u32 as NetworkAdapter>::enc_model(m.result);
        let ghost e2 = <RLE<String, u16> as NetworkAdapter>::enc_model(m.result_string);
        let ghost p1 = e1;
        let ghost p2 = p1 + e2;
        let mut tmp: Vec<u8> = Vec::new();
        let ghost o0 = tmp@;
        match result.put_be(&mut tmp) {
            Ok(()) => {},
            Err(e) => {
                return Err(e);
            },
        };
        let ghost o1 = tmp@;
        proof {
            assert(result.model() == m.result);
            assert(o1 == o0 + p1);
        }
        match result_string.put_be(&mut tmp) {
            Ok(()) => {},
            Err(e) => {
                return Err(e);
            },
        };
        let ghost o2 = tmp@;
        proof {
            assert(result_string.model() == m.result_string);
            lemma_seq_assoc(o0, p1, e2);
            assert(o2 == o0 + p2);
        }
        out.append(&mut tmp);
        proof {
            assert(Self::enc_model(m) == p2);
            assert(o0 + p2 =~= p2);
            assert(out@ == old(out)@ + Self::enc_model(m));
        }
        Ok(())
    }

    proof fn lemma_dec_enc(m: BuyResultModel, rest: Seq<u8>) {
        let e1 = <u32 as NetworkAdapter>::enc_model(m.result);
        let e2 = <RLE<String, u16> as NetworkAdapter>::enc_model(m.result_string);
        let p1 = e1;
        let p2 = p1 + e2;
        assert(Self::enc_model(m) == p2);
        let r2 = rest;
        let r1 = e2 + r2;
        let b = Self::enc_model(m) + rest;
        lemma_seq_assoc(p1, e2, r2);
        assert(p2 + r2 == p1 + r1);
        assert(b == e1 + r1);
        <u32 as NetworkAdapter>::lemma_dec_enc(m.result, r1);
        <RLE<String, u16> as NetworkAdapter>::lemma_dec_enc(m.result_string, r2);
        let c1 = b.skip(e1.len() as int);
        lemma_skip_concat(e1, r1);
        assert(c1 == r1);
        assert(Self::enc_model(m).len() == e1.len() + e2.len());
        assert(BuyResultModel { result: m.result, result_string: m.result_string } =~= m);
    }

    proof fn lemma_enc_dec(b: Seq<u8>, m: BuyResultModel, n: int) {
        let (g1, n1) = <u32 as NetworkAdapter>::dec(b)->Ok_0;
        <u32 as NetworkAdapter>::lemma_enc_dec(b, g1, n1);
        let b1 = b.skip(n1);
        let (g2, n2) = <RLE<String, u16> as NetworkAdapter>::dec(b1)->Ok_0;
        <RLE<String, u16> as NetworkAdapter>::lemma_enc_dec(b1, g2, n2);
        assert(n == n1 + n2);
        assert(m.result == g1);
        assert(m.result_string == g2);
        if Self::canon(b) {
            let s1 = n1;
            let s2 = s1 + n2;
            let q1 = <u32 as NetworkAdapter>::enc_model(m.result);
            assert(q1 == b.take(s1));
            lemma_take_concat(b, s1, n2);
            let q2 = q1 + <RLE<String, u16> as NetworkAdapter>::enc_model(m.result_string);
            assert(q2 == b.take(s2));
            assert(Self::enc_model(m) == q2);
            assert(Self::enc_model(m) == b.take(n));
        }
    }
}

#[verifier::ext_equal]
#[derive(Debug, PartialEq, Clone)]
pub struct ClientStat {
    pub name: RLE<String, u16>,
    pub value: u32,
}

/// The mathematical model of a decoded `ClientStat`.
#[verifier::ext_equal]
pub struct ClientStatModel {
    pub name: Seq<char>,
    pub value: u32,
}

impl NetworkAdapter for ClientStat {
    type Model = ClientStatModel;

    open spec fn model(self) -> ClientStatModel {
        ClientStatModel {
            name: self.name.model(),
            value: self.value.model(),
        }
    }

    open spec fn enc_model(m: ClientStatModel) -> Seq<u8> {
        <RLE<String, u16> as NetworkAdapter>::enc_model(m.name) + <u32 as NetworkAdapter>::enc_model(m.value)
    }

    open spec fn valid_model(m: ClientStatModel) -> bool {
        <RLE<String, u16> as NetworkAdapter>::valid_model(m.name) && <u32 as NetworkAdapter>::valid_model(m.value)
    }

    closed spec fn dec(b: Seq<u8>) -> Result<(ClientStatModel, int), Error> {
        match <RLE<String, u16> as NetworkAdapter>::dec(b) {
            Ok((g1, n1)) => {
                let b1 = b.skip(n1);
                match <u32 as NetworkAdapter>::dec(b1) {
                    Ok((g2, n2)) => {
                        Ok((ClientStatModel { name: g1, value: g2 }, n1 + n2))
                    },
                    Err(e) => Err(e),
                }
            },
            Err(e) => Err(e),
        }
    }

    closed spec fn canon(b: Seq<u8>) -> bool {
        match <RLE<String, u16> as NetworkAdapter>::dec(b) {
            Ok((g1, n1)) => <RLE<String, u16> as NetworkAdapter>::canon(b) && {
                let b1 = b.skip(n1);
                match <u32 as NetworkAdapter>::dec(b1) {
                    Ok((g2, n2)) => <u32 as NetworkAdapter>::canon(b1) && {
                        true
                    },
                    Err(e) => true,
                }
            },
            Err(e) => true,
        }
    }

    fn get_be(r: &mut Reader) -> (res: Result<ClientStat, Error>) {
        let ghost b = old(r).remaining_bytes();
        let save = r.position();
        let x1 = match <RLE<String, u16> as NetworkAdapter>::get_be(r) {
            Ok(v) => v,
            Err(e) => {
                r.seek(save);
                return Err(e);
            },
        };
        let x2 = match <u32 as NetworkAdapter>::get_be(r) {
            Ok(v) => v,
            Err(e) => {
                r.seek(save);
                return Err(e);
            },
        };
        proof {
            let (g1, n1) = <RLE<String, u16> as NetworkAdapter>::dec(b)->Ok_0;
            let b1 = b.skip(n1);
            let (g2, n2) = <u32 as NetworkAdapter>::dec(b1)->Ok_0;
            lemma_skip_skip(b, n1, n2);
            assert(b1.skip(n2) == b.skip(n1 + n2));
        }
        Ok(ClientStat { name: x1, value: x2 })
    }

    fn put_be(self, out: &mut Vec<u8>) -> (res: Result<(), Error>) {
        let ghost m = self.model();
        let ClientStat { name, value } = self;
        let ghost e1 = <RLE<String, u16> as NetworkAdapter>::enc_model(m.name);
        let ghost e2 = <u32 as NetworkAdapter>::enc_model(m.value);
        let ghost p1 = e1;
        let ghost p2 = p1 + e2;
        let mut tmp: Vec<u8> = Vec::new();
        let ghost o0 = tmp@;
        match name.put_be(&mut tmp) {
            Ok(()) => {},
            Err(e) => {
                return Err(e);
            },
        };
        let ghost o1 = tmp@;
        proof {
            assert(name.model() == m.name);
            assert(o1 == o0 + p1);
        }
        match value.put_be(&mut tmp) {
            Ok(()) => {},
            Err(e) => {
                return Err(e);
            },
        };
        let ghost o2 = tmp@;
        proof {
            assert(value.model() == m.value);
            lemma_seq_assoc(o0, p1, e2);
            assert(o2 == o0 + p2);
        }
        out.append(&mut tmp);
        proof {
            assert(Self::enc_model(m) == p2);
            assert(o0 + p2 =~= p2);
            assert(out@ == old(out)@ + Self::enc_model(m));
        }
        Ok(())
    }

    proof fn lemma_dec_enc(m: ClientStatModel, rest: Seq<u8>) {
        let e1 = <RLE<String, u16> as NetworkAdapter>::enc_model(m.name);
        let e2 = <u32 as NetworkAdapter>::enc_model(m.value);
        let p1 = e1;
        let p2 = p1 + e2;
        assert(Self::enc_model(m) == p2);
        let r2 = rest;
        let r1 = e2 + r2;
        let b = Self::enc_model(m) + rest;
        lemma_seq_assoc(p1, e2, r2);
        assert(p2 + r2 == p1 + r1);
        assert(b == e1 + r1);
        <RLE<String, u16> as NetworkAdapter>::lemma_dec_enc(m.name, r1);
        <u32 as NetworkAdapter>::lemma_dec_enc(m.value, r2);
        let c1 = b.skip(e1.len() as int);
        lemma_skip_concat(e1, r1);
        assert(c1 == r1);
        assert(Self::enc_model(m).len() == e1.len() + e2.len());
        assert(ClientStatModel { name: m.name, value: m.value } =~= m);
    }

    proof fn lemma_enc_dec(b: Seq<u8>, m: ClientStatModel, n: int) {
        let (g1, n1) = <RLE<String, u16> as NetworkAdapter>::dec(b)->Ok_0;
        <RLE<String, u16> as NetworkAdapter>::lemma_enc_dec(b, g1, n1);
        let b1 = b.skip(n1);
        let (g2, n2) = <u32 as NetworkAdapter>::dec(b1)->Ok_0;
        <u32 as NetworkAdapter>::lemma_enc_dec(b1, g2, n2);
        assert(n == n1 + n2);
        assert(m.name == g1);
        assert(m.value == g2);
        if Self::canon(b) {
            let s1 = n1;
            let s2 = s1 + n2;
            let q1 = <RLE<String, u16> as NetworkAdapter>::enc_model(m.name);
            assert(q1 == b.take(s1));
            lemma_take_concat(b, s1, n2);
            let q2 = q1 + <u32 as NetworkAdapter>::enc_model(m.value);
            assert(q2 == b.take(s2));
            assert(Self::enc_model(m) == q2);
            assert(Self::enc_model(m) == b.take(n));
        }
    }
}

#[verifier::ext_equal]
#[derive(Debug, PartialEq, Clone)]
pub struct CreateSuccess {
    pub object_id: u32,
    pub char_id: u32,
}

impl NetworkAdapter for CreateSuccess {
    type Model = CreateSuccess;

    open spec fn model(self) -> CreateSuccess {
        self
    }

    open spec fn enc_model(m: CreateSuccess) -> Seq<u8> {
        <u32 as NetworkAdapter>::enc_model(m.object_id) + <u32 as NetworkAdapter>::enc_model(m.char_id)
    }

    open spec fn valid_model(m: CreateSuccess) -> bool {
        <u32 as NetworkAdapter>::valid_model(m.object_id) && <u32 as NetworkAdapter>::valid_model(m.char_id)
    }

    closed spec fn dec(b: Seq<u8>) -> Result<(CreateSuccess, int), Error> {
        match <u32 as NetworkAdapter>::dec(b) {
            Ok((g1, n1)) => {
                let b1 = b.skip(n1);
                match <u32 as NetworkAdapter>::dec(b1) {
                    Ok((g2, n2)) => {
                        Ok((CreateSuccess { object_id: g1, char_id: g2 }, n1 + n2))
                    },
                    Err(e) => Err(e),
                }
            },
            Err(e) => Err(e),
        }
    }

    closed spec fn canon(b: Seq<u8>) -> bool {
        match <u32 as NetworkAdapter>::dec(b) {
            Ok((g1, n1)) => <u32 as NetworkAdapter>::canon(b) && {
                let b1 = b.skip(n1);
                match <u32 as NetworkAdapter>::dec(b1) {
                    Ok((g2, n2)) => <u32 as NetworkAdapter>::canon(b1) && {
                        true
                    },
                    Err(e) => true,
                }
            },
            Err(e) => true,
        }
    }

    fn get_be(r: &mut Reader) -> (res: Result<CreateSuccess, Error>) {
        let ghost b = old(r).remaining_bytes();
        let save = r.position();
        let x1 = match <u32 as NetworkAdapter>::get_be(r) {
            Ok(v) => v,
            Err(e) => {
                r.seek(save);
                return Err(e);
            },
        };
        let x2 = match <u32 as NetworkAdapter>::get_be(r) {
            Ok(v) => v,
            Err(e) => {
                r.seek(save);
                return Err(e);
            },
        };
        proof {
            let (g1, n1) = <u32 as NetworkAdapter>::dec(b)->Ok_0;
            let b1 = b.skip(n1);
            let (g2, n2) = <u32 as NetworkAdapter>::dec(b1)->Ok_0;
            lemma_skip_skip(b, n1, n2);
            assert(b1.skip(n2) == b.skip(n1 + n2));
        }
        Ok(CreateSuccess { object_id: x1, char_id: x2 })
    }

    fn put_be(self, out: &mut Vec<u8>) -> (res: Result<(), Error>) {
        let ghost m = self.model();
        let CreateSuccess { object_id, char_id } = self;
        let ghost e1 = <u32 as NetworkAdapter>::enc_model(m.object_id);
        let ghost e2 = <u32 as NetworkAdapter>::enc_model(m.char_id);
        let ghost p1 = e1;
        let ghost p2 = p1 + e2;
        let mut tmp: Vec<u8> = Vec::new();
        let ghost o0 = tmp@;
        match object_id.put_be(&mut tmp) {
            Ok(()) => {},
            Err(e) => {
                return Err(e);
            },
        };
        let ghost o1 = tmp@;
        proof {
            assert(object_id == m.object_id);
            assert(o1 == o0 + p1);
        }
        match char_id.put_be(&mut tmp) {
            Ok(()) => {},
            Err(e) => {
                return Err(e);
            },
        };
        let ghost o2 = tmp@;
        proof {
            assert(char_id == m.char_id);
            lemma_seq_assoc(o0, p1, e2);
            assert(o2 == o0 + p2);
        }
        out.append(&mut tmp);
        proof {
            assert(Self::enc_model(m) == p2);
            assert(o0 + p2 =~= p2);
            assert(out@ == old(out)@ + Self::enc_model(m));
        }
        Ok(())
    }

    proof fn lemma_dec_enc(m: CreateSuccess, rest: Seq<u8>) {
        let e1 = <u32 as NetworkAdapter>::enc_model(m.object_id);
        let e2 = <u32 as NetworkAdapter>::enc_model(m.char_id);
        let p1 = e1;
        let p2 = p1 + e2;
        assert(Self::enc_model(m) == p2);
        let r2 = rest;
        let r1 = e2 + r2;
        let b = Self::enc_model(m) + rest;
        lemma_seq_assoc(p1, e2, r2);
        assert(p2 + r2 == p1 + r1);
        assert(b == e1 + r1);
        <u32 as NetworkAdapter>::lemma_dec_enc(m.object_id, r1);
        <u32 as NetworkAdapter>::lemma_dec_enc(m.char_id, r2);
        let c1 = b.skip(e1.len() as int);
        lemma_skip_concat(e1, r1);
        assert(c1 == r1);
        assert(Self::enc_model(m).len() == e1.len() + e2.len());
        assert(CreateSuccess { object_id: m.object_id, char_id: m.char_id } =~= m);
    }

    proof fn lemma_enc_dec(b: Seq<u8>, m: CreateSuccess, n: int) {
        let (g1, n1) = <u32 as NetworkAdapter>::dec(b)->Ok_0;
        <u32 as NetworkAdapter>::lemma_enc_dec(b, g1, n1);
        let b1 = b.skip(n1);
        let (g2, n2) = <u32 as NetworkAdapter>::dec(b1)->Ok_0;
        <u32 as NetworkAdapter>::lemma_enc_dec(b1, g2, n2);
        assert(n == n1 + n2);
        assert(m.object_id == g1);
        assert(m.char_id == g2);
        if Self::canon(b) {
            let s1 = n1;
            let s2 = s1 + n2;
            let q1 = <u32 as NetworkAdapter>::enc_model(m.object_id);
            assert(q1 == b.take(s1));
            lemma_take_concat(b, s1, n2);
            let q2 = q1 + <u32 as NetworkAdapter>::enc_model(m.char_id);
            assert(q2 == b.take(s2));
            assert(Self::enc_model(m) == q2);
            assert(Self::enc_model(m) == b.take(n));
        }
    }
}

#[verifier::ext_equal]
#[derive(Debug, PartialEq, Clone)]
pub struct Damage {
    pub target_id: u32,
    pub effects: RLE<Vec<u8>, u8>,
    pub damage_amount: u16,
    pub kill: bool,
    pub armor_pierce: bool,
    pub bullet_id: u8,
    pub object_id: u32,
}

/// The mathematical model of a decoded `Damage`.
#[verifier::ext_equal]
pub struct DamageModel {
    pub target_id: u32,
    pub effects: Seq<u8>,
    pub damage_amount: u16,
    pub kill: bool,
    pub armor_pierce: bool,
    pub bullet_id: u8,
    pub object_id: u32,
}

impl NetworkAdapter for Damage {
    type Model = DamageModel;

    open spec fn model(self) -> DamageModel {
        DamageModel {
            target_id: self.target_id.model(),
            effects: self.effects.model(),
            damage_amount: self.damage_amount.model(),
            kill: self.kill.model(),
            armor_pierce: self.armor_pierce.model(),
            bullet_id: self.bullet_id.model(),
            object_id: self.object_id.model(),
        }
    }

    open spec fn enc_model(m: DamageModel) -> Seq<u8> {
        <u32 as NetworkAdapter>::enc_model(m.target_id) + <RLE<Vec<u8>, u8> as NetworkAdapter>::enc_model(m.effects) + <u16 as NetworkAdapter>::enc_model(m.damage_amount) + <bool as NetworkAdapter>::enc_model(m.kill) + <bool as NetworkAdapter>::enc_model(m.armor_pierce) + <u8 as NetworkAdapter>::enc_model(m.bullet_id) + <u32 as NetworkAdapter>::enc_model(m.object_id)
    }

    open spec fn valid_model(m: DamageModel) -> bool {
        <u32 as NetworkAdapter>::valid_model(m.target_id) && <RLE<Vec<u8>, u8> as NetworkAdapter>::valid_model(m.effects) && <u16 as NetworkAdapter>::valid_model(m.damage_amount) && <bool as NetworkAdapter>::valid_model(m.kill) && <bool as NetworkAdapter>::valid_model(m.armor_pierce) && <u8 as NetworkAdapter>::valid_model(m.bullet_id) && <u32 as NetworkAdapter>::valid_model(m.object_id)
    }

    closed spec fn dec(b: Seq<u8>) -> Result<(DamageModel, int), Error> {
        match <u32 as NetworkAdapter>::dec(b) {
            Ok((g1, n1)) => {
                let b1 = b.skip(n1);
                match <RLE<Vec<u8>, u8> as NetworkAdapter>::dec(b1) {
                    Ok((g2, n2)) => {
                        let b2 = b1.skip(n2);
                        match <u16 as NetworkAdapter>::dec(b2) {
                            Ok((g3, n3)) => {
                                let b3 = b2.skip(n3);
                                match <bool as NetworkAdapter>::dec(b3) {
                                    Ok((g4, n4)) => {
                                        let b4 = b3.skip(n4);
                                        match <bool as NetworkAdapter>::dec(b4) {
                                            Ok((g5, n5)) => {
                                                let b5 = b4.skip(n5);
                                                match <u8 as NetworkAdapter>::dec(b5) {
                                                    Ok((g6, n6)) => {
                                                        let b6 = b5.skip(n6);
                                                        match <u32 as NetworkAdapter>::dec(b6) {
                                                            Ok((g7, n7)) => {
                                                                Ok((DamageModel { target_id: g1, effects: g2, damage_amount: g3, kill: g4, armor_pierce: g5, bullet_id: g6, object_id: g7 }, n1 + n2 + n3 + n4 + n5 + n6 + n7))
                                                            },
                                                            Err(e) => Err(e),
                                                        }
                                                    },
                                                    Err(e) => Err(e),
                                                }
                                            },
                                            Err(e) => Err(e),
                                        }
                                    },
                                    Err(e) => Err(e),
                                }
                            },
                            Err(e) => Err(e),
                        }
                    },
                    Err(e) => Err(e),
                }
            },
            Err(e) => Err(e),
        }
    }

    closed spec fn canon(b: Seq<u8>) -> bool {
        match <u32 as NetworkAdapter>::dec(b) {
            Ok((g1, n1)) => <u32 as NetworkAdapter>::canon(b) && {
                let b1 = b.skip(n1);
                match <RLE<Vec<u8>, u8> as NetworkAdapter>::dec(b1) {
                    Ok((g2, n2)) => <RLE<Vec<u8>, u8> as NetworkAdapter>::canon(b1) && {
                        let b2 = b1.skip(n2);
                        match <u16 as NetworkAdapter>::dec(b2) {
                            Ok((g3, n3)) => <u16 as NetworkAdapter>::canon(b2) && {
                                let b3 = b2.skip(n3);
                                match <bool as NetworkAdapter>::dec(b3) {
                                    Ok((g4, n4)) => <bool as NetworkAdapter>::canon(b3) && {
                                        let b4 = b3.skip(n4);
                                        match <bool as NetworkAdapter>::dec(b4) {
                                            Ok((g5, n5)) => <bool as NetworkAdapter>::canon(b4) && {
                                                let b5 = b4.skip(n5);
                                                match <u8 as NetworkAdapter>::dec(b5) {
                                                    Ok((g6, n6)) => <u8 as NetworkAdapter>::canon(b5) && {
                                                        let b6 = b5.skip(n6);
                                                        match <u32 as NetworkAdapter>::dec(b6) {
                                                            Ok((g7, n7)) => <u32 as NetworkAdapter>::canon(b6) && {
                                                                true
                                                            },
                                                            Err(e) => true,
                                                        }
                                                    },
                                                    Err(e) => true,
                                                }
                                            },
                                            Err(e) => true,
                                        }
                                    },
                                    Err(e) => true,
                                }
                            },
                            Err(e) => true,
                        }
                    },
                    Err(e) => true,
                }
            },
            Err(e) => true,
        }
    }

    #[verifier::rlimit(100)]
    #[verifier::spinoff_prover]
    fn get_be(r: &mut Reader) -> (res: Result<Damage, Error>) {
        let ghost b = old(r).remaining_bytes();
        let save = r.position();
        let x1 = match <u32 as NetworkAdapter>::get_be(r) {
            Ok(v) => v,
            Err(e) => {
                r.seek(save);
                return Err(e);
            },
        };
        let x2 = match <RLE<Vec<u8>, u8> as NetworkAdapter>::get_be(r) {
            Ok(v) => v,
            Err(e) => {
                r.seek(save);
                return Err(e);
            },
        };
        let x3 = match <u16 as NetworkAdapter>::get_be(r) {
            Ok(v) => v,
            Err(e) => {
                r.seek(save);
                return Err(e);
            },
        };
        let x4 = match <bool as NetworkAdapter>::get_be(r) {
            Ok(v) => v,
            Err(e) => {
                r.seek(save);
                return Err(e);
            },
        };
        let x5 = match <bool as NetworkAdapter>::get_be(r) {
            Ok(v) => v,
            Err(e) => {
                r.seek(save);
                return Err(e);
            },
        };
        let x6 = match <u8 as NetworkAdapter>::get_be(r) {
            Ok(v) => v,
            Err(e) => {
                r.seek(save);
                return Err(e);
            },
        };
        let x7 = match <u32 as NetworkAdapter>::get_be(r) {
            Ok(v) => v,
            Err(e) => {
                r.seek(save);
                return Err(e);
            },
        };
        proof {
            let (g1, n1) = <u32 as NetworkAdapter>::dec(b)->Ok_0;
            let b1 = b.skip(n1);
            let (g2, n2) = <RLE<Vec<u8>, u8> as NetworkAdapter>::dec(b1)->Ok_0;
            let b2 = b1.skip(n2);
            let (g3, n3) = <u16 as NetworkAdapter>::dec(b2)->Ok_0;
            let b3 = b2.skip(n3);
            let (g4, n4) = <bool as NetworkAdapter>::dec(b3)->Ok_0;
            let b4 = b3.skip(n4);
            let (g5, n5) = <bool as NetworkAdapter>::dec(b4)->Ok_0;
            let b5 = b4.skip(n5);
            let (g6, n6) = <u8 as NetworkAdapter>::dec(b5)->Ok_0;
            let b6 = b5.skip(n6);
            let (g7, n7) = <u32 as NetworkAdapter>::dec(b6)->Ok_0;
            lemma_skip_skip(b, n1, n2);
            assert(b2 == b.skip(n1 + n2));
            lemma_skip_skip(b, n1 + n2, n3);
            assert(b3 == b.skip(n1 + n2 + n3));
            lemma_skip_skip(b, n1 + n2 + n3, n4);
            assert(b4 == b.skip(n1 + n2 + n3 + n4));
            lemma_skip_skip(b, n1 + n2 + n3 + n4, n5);
            assert(b5 == b.skip(n1 + n2 + n3 + n4 + n5));
            lemma_skip_skip(b, n1 + n2 + n3 + n4 + n5, n6);
            assert(b6 == b.skip(n1 + n2 + n3 + n4 + n5 + n6));
            lemma_skip_skip(b, n1 + n2 + n3 + n4 + n5 + n6, n7);
            assert(b6.skip(n7) == b.skip(n1 + n2 + n3 + n4 + n5 + n6 + n7));
        }
        Ok(Damage { target_id: x1, effects: x2, damage_amount: x3, kill: x4, armor_pierce: x5, bullet_id: x6, object_id: x7 })
    }

    #[verifier::rlimit(100)]
    #[verifier::spinoff_prover]
    fn put_be(self, out: &mut Vec<u8>) -> (res: Result<(), Error>) {
        let ghost m = self.model();
        let Damage { target_id, effects, damage_amount, kill, armor_pierce, bullet_id, object_id } = self;
        let ghost e1 = <u32 as NetworkAdapter>::enc_model(m.target_id);
        let ghost e2 = <RLE<Vec<u8>, u8> as NetworkAdapter>::enc_model(m.effects);
        let ghost e3 = <u16 as NetworkAdapter>::enc_model(m.damage_amount);
        let ghost e4 = <bool as NetworkAdapter>::enc_model(m.kill);
        let ghost e5 = <bool as NetworkAdapter>::enc_model(m.armor_pierce);
        let ghost e6 = <u8 as NetworkAdapter>::enc_model(m.bullet_id);
        let ghost e7 = <u32 as NetworkAdapter>::enc_model(m.object_id);
        let ghost p1 = e1;
        let ghost p2 = p1 + e2;
        let ghost p3 = p2 + e3;
        let ghost p4 = p3 + e4;
        let ghost p5 = p4 + e5;
        let ghost p6 = p5 + e6;
        let ghost p7 = p6 + e7;
        let mut tmp: Vec<u8> = Vec::new();
        let ghost o0 = tmp@;
        match target_id.put_be(&mut tmp) {
            Ok(()) => {},
            Err(e) => {
                return Err(e);
            },
        };
        let ghost o1 = tmp@;
        proof {
            assert(target_id.model() == m.target_id);
            assert(o1 == o0 + p1);
        }
        match effects.put_be(&mut tmp) {
            Ok(()) => {},
            Err(e) => {
                return Err(e);
            },
        };
        let ghost o2 = tmp@;
        proof {
            assert(effects.model() == m.effects);
            lemma_seq_assoc(o0, p1, e2);
            assert(o2 == o0 + p2);
        }
        match damage_amount.put_be(&mut tmp) {
            Ok(()) => {},
            Err(e) => {
                return Err(e);
            },
        };
        let ghost o3 = tmp@;
        proof {
            assert(damage_amount.model() == m.damage_amount);
            lemma_seq_assoc(o0, p2, e3);
            assert(o3 == o0 + p3);
        }
        match kill.put_be(&mut tmp) {
            Ok(()) => {},
            Err(e) => {
                return Err(e);
            },
        };
        let ghost o4 = tmp@;
        proof {
            assert(kill.model() == m.kill);
            lemma_seq_assoc(o0, p3, e4);
            assert(o4 == o0 + p4);
        }
        match armor_pierce.put_be(&mut tmp) {
            Ok(()) => {},
            Err(e) => {
                return Err(e);
            },
        };
        let ghost o5 = tmp@;
        proof {
            assert(armor_pierce.model() == m.armor_pierce);
            lemma_seq_assoc(o0, p4, e5);
            assert(o5 == o0 + p5);
        }
        match bullet_id.put_be(&mut tmp) {
            Ok(()) => {},
            Err(e) => {
                return Err(e);
            },
        };
        let ghost o6 = tmp@;
        proof {
            assert(bullet_id.model() == m.bullet_id);
            lemma_seq_assoc(o0, p5, e6);
            assert(o6 == o0 + p6);
        }
        match object_id.put_be(&mut tmp) {
            Ok(()) => {},
            Err(e) => {
                return Err(e);
            },
        };
        let ghost o7 = tmp@;
        proof {
            assert(object_id.model() == m.object_id);
            lemma_seq_assoc(o0, p6, e7);
            assert(o7 == o0 + p7);
        }
        out.append(&mut tmp);
        proof {
            assert(Self::enc_model(m) == p7);
            assert(o0 + p7 =~= p7);
            assert(out@ == old(out)@ + Self::enc_model(m));
        }
        Ok(())
    }

    #[verifier::rlimit(100)]
    #[verifier::spinoff_prover]
    proof fn lemma_dec_enc(m: DamageModel, rest: Seq<u8>) {
        let e1 = <u32 as NetworkAdapter>::enc_model(m.target_id);
        let e2 = <RLE<Vec<u8>, u8> as NetworkAdapter>::enc_model(m.effects);
        let e3 = <u16 as NetworkAdapter>::enc_model(m.damage_amount);
        let e4 = <bool as NetworkAdapter>::enc_model(m.kill);
        let e5 = <bool as NetworkAdapter>::enc_model(m.armor_pierce);
        let e6 = <u8 as NetworkAdapter>::enc_model(m.bullet_id);
        let e7 = <u32 as NetworkAdapter>::enc_model(m.object_id);
        let p1 = e1;
        let p2 = p1 + e2;
        let p3 = p2 + e3;
        let p4 = p3 + e4;
        let p5 = p4 + e5;
        let p6 = p5 + e6;
        let p7 = p6 + e7;
        assert(Self::enc_model(m) == p7);
        let r7 = rest;
        let r6 = e7 + r7;
        let r5 = e6 + r6;
        let r4 = e5 + r5;
        let r3 = e4 + r4;
        let r2 = e3 + r3;
        let r1 = e2 + r2;
        let b = Self::enc_model(m) + rest;
        lemma_seq_assoc(p6, e7, r7);
        assert(p7 + r7 == p6 + r6);
        lemma_seq_assoc(p5, e6, r6);
        assert(p6 + r6 == p5 + r5);
        lemma_seq_assoc(p4, e5, r5);
        assert(p5 + r5 == p4 + r4);
        lemma_seq_assoc(p3, e4, r4);
        assert(p4 + r4 == p3 + r3);
        lemma_seq_assoc(p2, e3, r3);
        assert(p3 + r3 == p2 + r2);
        lemma_seq_assoc(p1, e2, r2);
        assert(p2 + r2 == p1 + r1);
        assert(b == e1 + r1);
        <u32 as NetworkAdapter>::lemma_dec_enc(m.target_id, r1);
        <RLE<Vec<u8>, u8> as NetworkAdapter>::lemma_dec_enc(m.effects, r2);
        <u16 as NetworkAdapter>::lemma_dec_enc(m.damage_amount, r3);
        <bool as NetworkAdapter>::lemma_dec_enc(m.kill, r4);
        <bool as NetworkAdapter>::lemma_dec_enc(m.armor_pierce, r5);
        <u8 as NetworkAdapter>::lemma_dec_enc(m.bullet_id, r6);
        <u32 as NetworkAdapter>::lemma_dec_enc(m.object_id, r7);
        let c1 = b.skip(e1.len() as int);
        lemma_skip_concat(e1, r1);
        assert(c1 == r1);
        let c2 = c1.skip(e2.len() as int);
        lemma_skip_concat(e2, r2);
        assert(c2 == r2);
        let c3 = c2.skip(e3.len() as int);
        lemma_skip_concat(e3, r3);
        assert(c3 == r3);
        let c4 = c3.skip(e4.len() as int);
        lemma_skip_concat(e4, r4);
        assert(c4 == r4);
        let c5 = c4.skip(e5.len() as int);
        lemma_skip_concat(e5, r5);
        assert(c5 == r5);
        let c6 = c5.skip(e6.len() as int);
        lemma_skip_concat(e6, r6);
        assert(c6 == r6);
        assert(Self::enc_model(m).len() == e1.len() + e2.len() + e3.len() + e4.len() + e5.len() + e6.len() + e7.len());
        assert(DamageModel { target_id: m.target_id, effects: m.effects, damage_amount: m.damage_amount, kill: m.kill, armor_pierce: m.armor_pierce, bullet_id: m.bullet_id, object_id: m.object_id } =~= m);
    }

    #[verifier::rlimit(100)]
    #[verifier::spinoff_prover]
    proof fn lemma_enc_dec(b: Seq<u8>, m: DamageModel, n: int) {
        let (g1, n1) = <u32 as NetworkAdapter>::dec(b)->Ok_0;
        <u32 as NetworkAdapter>::lemma_enc_dec(b, g1, n1);
        let b1 = b.skip(n1);
        let (g2, n2) = <RLE<Vec<u8>, u8> as NetworkAdapter>::dec(b1)->Ok_0;
        <RLE<Vec<u8>, u8> as NetworkAdapter>::lemma_enc_dec(b1, g2, n2);
        let b2 = b1.skip(n2);
        let (g3, n3) = <u16 as NetworkAdapter>::dec(b2)->Ok_0;
        <u16 as NetworkAdapter>::lemma_enc_dec(b2, g3, n3);
        let b3 = b2.skip(n3);
        let (g4, n4) = <bool as NetworkAdapter>::dec(b3)->Ok_0;
        <bool as NetworkAdapter>::lemma_enc_dec(b3, g4, n4);
        let b4 = b3.skip(n4);
        let (g5, n5) = <bool as NetworkAdapter>::dec(b4)->Ok_0;
        <bool as NetworkAdapter>::lemma_enc_dec(b4, g5, n5);
        let b5 = b4.skip(n5);
        let (g6, n6) = <u8 as NetworkAdapter>::dec(b5)->Ok_0;
        <u8 as NetworkAdapter>::lemma_enc_dec(b5, g6, n6);
        let b6 = b5.skip(n6);
        let (g7, n7) = <u32 as NetworkAdapter>::dec(b6)->Ok_0;
        <u32 as NetworkAdapter>::lemma_enc_dec(b6, g7, n7);
        lemma_skip_skip(b, n1, n2);
        assert(b2 == b.skip(n1 + n2));
        lemma_skip_skip(b, n1 + n2, n3);
        assert(b3 == b.skip(n1 + n2 + n3));
        lemma_skip_skip(b, n1 + n2 + n3, n4);
        assert(b4 == b.skip(n1 + n2 + n3 + n4));
        lemma_skip_skip(b, n1 + n2 + n3 + n4, n5);
        assert(b5 == b.skip(n1 + n2 + n3 + n4 + n5));
        lemma_skip_skip(b, n1 + n2 + n3 + n4 + n5, n6);
        assert(b6 == b.skip(n1 + n2 + n3 + n4 + n5 + n6));
        assert(n == n1 + n2 + n3 + n4 + n5 + n6 + n7);
        assert(m.target_id == g1);
        assert(m.effects == g2);
        assert(m.damage_amount == g3);
        assert(m.kill == g4);
        assert(m.armor_pierce == g5);
        assert(m.bullet_id == g6);
        assert(m.object_id == g7);
        if Self::canon(b) {
            let s1 = n1;
            let s2 = s1 + n2;
            let s3 = s2 + n3;
            let s4 = s3 + n4;
            let s5 = s4 + n5;
            let s6 = s5 + n6;
            let s7 = s6 + n7;
            let q1 = <u32 as NetworkAdapter>::enc_model(m.target_id);
            assert(q1 == b.take(s1));
            lemma_take_concat(b, s1, n2);
            let q2 = q1 + <RLE<Vec<u8>, u8> as NetworkAdapter>::enc_model(m.effects);
            assert(q2 == b.take(s2));
            lemma_take_concat(b, s2, n3);
            let q3 = q2 + <u16 as NetworkAdapter>::enc_model(m.damage_amount);
            assert(q3 == b.take(s3));
            lemma_take_concat(b, s3, n4);
            let q4 = q3 + <bool as NetworkAdapter>::enc_model(m.kill);
            assert(q4 == b.take(s4));
            lemma_take_concat(b, s4, n5);
            let q5 = q4 + <bool as NetworkAdapter>::enc_model(m.armor_pierce);
            assert(q5 == b.take(s5));
            lemma_take_concat(b, s5, n6);
            let q6 = q5 + <u8 as NetworkAdapter>::enc_model(m.bullet_id);
            assert(q6 == b.take(s6));
            lemma_take_concat(b, s6, n7);
            let q7 = q6 + <u32 as NetworkAdapter>::enc_model(m.object_id);
            assert(q7 == b.take(s7));
            assert(Self::enc_model(m) == q7);
            assert(Self::enc_model(m) == b.take(n));
        }
    }
}

#[verifier::ext_equal]
#[derive(Debug, PartialEq, Clone)]
pub struct Death {
    pub account_id: RLE<String, u16>,
    pub char_id: u32,
    pub killed_by: RLE<String, u16>,
    pub zombie_type: u32,
    pub zombie_id: u32,
}

/// The mathematical model of a decoded `Death`.
#[verifier::ext_equal]
pub struct DeathModel {
    pub account_id: Seq<char>,
    pub char_id: u32,
    pub killed_by: Seq<char>,
    pub zombie_type: u32,
    pub zombie_id: u32,
}

impl NetworkAdapter for Death {
    type Model = DeathModel;

    open spec fn model(self) -> DeathModel {
        DeathModel {
            account_id: self.account_id.model(),
            char_id: self.char_id.model(),
            killed_by: self.killed_by.model(),
            zombie_type: self.zombie_type.model(),
            zombie_id: self.zombie_id.model(),
        }
    }

    open spec fn enc_model(m: DeathModel) -> Seq<u8> {
        <RLE<String, u16> as NetworkAdapter>::enc_model(m.account_id) + <u32 as NetworkAdapter>::enc_model(m.char_id) + <RLE<String, u16> as NetworkAdapter>::enc_model(m.killed_by) + <u32 as NetworkAdapter>::enc_model(m.zombie_type) + <u32 as NetworkAdapter>::enc_model(m.zombie_id)
    }

    open spec fn valid_model(m: DeathModel) -> bool {
        <RLE<String, u16> as NetworkAdapter>::valid_model(m.account_id) && <u32 as NetworkAdapter>::valid_model(m.char_id) && <RLE<String, u16> as NetworkAdapter>::valid_model(m.killed_by) && <u32 as NetworkAdapter>::valid_model(m.zombie_type) && <u32 as NetworkAdapter>::valid_model(m.zombie_id)
    }

    closed spec fn dec(b: Seq<u8>) -> Result<(DeathModel, int), Error> {
        match <RLE<String, u16> as NetworkAdapter>::dec(b) {
            Ok((g1, n1)) => {
                let b1 = b.skip(n1);
                match <u32 as NetworkAdapter>::dec(b1) {
                    Ok((g2, n2)) => {
                        let b2 = b1.skip(n2);
                        match <RLE<String, u16> as NetworkAdapter>::dec(b2) {
                            Ok((g3, n3)) => {
                                let b3 = b2.skip(n3);
                                match <u32 as NetworkAdapter>::dec(b3) {
                                    Ok((g4, n4)) => {
                                        let b4 = b3.skip(n4);
                                        match <u32 as NetworkAdapter>::dec(b4) {
                                            Ok((g5, n5)) => {
                                                Ok((DeathModel { account_id: g1, char_id: g2, killed_by: g3, zombie_type: g4, zombie_id: g5 }, n1 + n2 + n3 + n4 + n5))
                                            },
                                            Err(e) => Err(e),
                                        }
                                    },
                                    Err(e) => Err(e),
                                }
                            },
                            Err(e) => Err(e),
                        }
                    },
                    Err(e) => Err(e),
                }
            },
            Err(e) => Err(e),
        }
    }

    closed spec fn canon(b: Seq<u8>) -> bool {
        match <RLE<String, u16> as NetworkAdapter>::dec(b) {
            Ok((g1, n1)) => <RLE<String, u16> as NetworkAdapter>::canon(b) && {
                let b1 = b.skip(n1);
                match <u32 as NetworkAdapter>::dec(b1) {
                    Ok((g2, n2)) => <u32 as NetworkAdapter>::canon(b1) && {
                        let b2 = b1.skip(n2);
                        match <RLE<String, u16> as NetworkAdapter>::dec(b2) {
                            Ok((g3, n3)) => <RLE<String, u16> as NetworkAdapter>::canon(b2) && {
                                let b3 = b2.skip(n3);
                                match <u32 as NetworkAdapter>::dec(b3) {
                                    Ok((g4, n4)) => <u32 as NetworkAdapter>::canon(b3) && {
                                        let b4 = b3.skip(n4);
                                        match <u32 as NetworkAdapter>::dec(b4) {
                                            Ok((g5, n5)) => <u32 as NetworkAdapter>::canon(b4) && {
                                                true
                                            },
                                            Err(e) => true,
                                        }
                                    },
                                    Err(e) => true,
                                }
                            },
                            Err(e) => true,
                        }
                    },
                    Err(e) => true,
                }
            },
            Err(e) => true,
        }
    }

    #[verifier::rlimit(100)]
    #[verifier::spinoff_prover]
    fn get_be(r: &mut Reader) -> (res: Result<Death, Error>) {
        let ghost b = old(r).remaining_bytes();
        let save = r.position();
        let x1 = match <RLE<String, u16> as NetworkAdapter>::get_be(r) {
            Ok(v) => v,
            Err(e) => {
                r.seek(save);
                return Err(e);
            },
        };
        let x2 = match <u32 as NetworkAdapter>::get_be(r) {
            Ok(v) => v,
            Err(e) => {
                r.seek(save);
                return Err(e);
            },
        };
        let x3 = match <RLE<String, u16> as NetworkAdapter>::get_be(r) {
            Ok(v) => v,
            Err(e) => {
                r.seek(save);
                return Err(e);
            },
        };
        let x4 = match <u32 as NetworkAdapter>::get_be(r) {
            Ok(v) => v,
            Err(e) => {
                r.seek(save);
                return Err(e);
            },
        };
        let x5 = match <u32 as NetworkAdapter>::get_be(r) {
            Ok(v) => v,
            Err(e) => {
                r.seek(save);
                return Err(e);
            },
        };
        proof {
            let (g1, n1) = <RLE<String, u16> as NetworkAdapter>::dec(b)->Ok_0;
            let b1 = b.skip(n1);
            let (g2, n2) = <u32 as NetworkAdapter>::dec(b1)->Ok_0;
            let b2 = b1.skip(n2);
            let (g3, n3) = <RLE<String, u16> as NetworkAdapter>::dec(b2)->Ok_0;
            let b3 = b2.skip(n3);
            let (g4, n4) = <u32 as NetworkAdapter>::dec(b3)->Ok_0;
            let b4 = b3.skip(n4);
            let (g5, n5) = <u32 as NetworkAdapter>::dec(b4)->Ok_0;
            lemma_skip_skip(b, n1, n2);
            assert(b2 == b.skip(n1 + n2));
            lemma_skip_skip(b, n1 + n2, n3);
            assert(b3 == b.skip(n1 + n2 + n3));
            lemma_skip_skip(b, n1 + n2 + n3, n4);
            assert(b4 == b.skip(n1 + n2 + n3 + n4));
            lemma_skip_skip(b, n1 + n2 + n3 + n4, n5);
            assert(b4.skip(n5) == b.skip(n1 + n2 + n3 + n4 + n5));
        }
        Ok(Death { account_id: x1, char_id: x2, killed_by: x3, zombie_type: x4, zombie_id: x5 })
    }

    #[verifier::rlimit(100)]
    #[verifier::spinoff_prover]
    fn put_be(self, out: &mut Vec<u8>) -> (res: Result<(), Error>) {
        let ghost m = self.model();
        let Death { account_id, char_id, killed_by, zombie_type, zombie_id } = self;
        let ghost e1 = <RLE<String, u16> as NetworkAdapter>::enc_model(m.account_id);
        let ghost e2 = <u32 as NetworkAdapter>::enc_model(m.char_id);
        let ghost e3 = <RLE<String, u16> as NetworkAdapter>::enc_model(m.killed_by);
        let ghost e4 = <u32 as NetworkAdapter>::enc_model(m.zombie_type);
        let ghost e5 = <u32 as NetworkAdapter>::enc_model(m.zombie_id);
        let ghost p1 = e1;
        let ghost p2 = p1 + e2;
        let ghost p3 = p2 + e3;
        let ghost p4 = p3 + e4;
        let ghost p5 = p4 + e5;
        let mut tmp: Vec<u8> = Vec::new();
        let ghost o0 = tmp@;
        match account_id.put_be(&mut tmp) {
            Ok(()) => {},
            Err(e) => {
                return Err(e);
            },
        };
        let ghost o1 = tmp@;
        proof {
            assert(account_id.model() == m.account_id);
            assert(o1 == o0 + p1);
        }
        match char_id.put_be(&mut tmp) {
            Ok(()) => {},
            Err(e) => {
                return Err(e);
            },
        };
        let ghost o2 = tmp@;
        proof {
            assert(char_id.model() == m.char_id);
            lemma_seq_assoc(o0, p1, e2);
            assert(o2 == o0 + p2);
        }
        match killed_by.put_be(&mut tmp) {
            Ok(()) => {},
            Err(e) => {
                return Err(e);
            },
        };
        let ghost o3 = tmp@;
        proof {
            assert(killed_by.model() == m.killed_by);
            lemma_seq_assoc(o0, p2, e3);
            assert(o3 == o0 + p3);
        }
        match zombie_type.put_be(&mut tmp) {
            Ok(()) => {},
            Err(e) => {
                return Err(e);
            },
        };
        let ghost o4 = tmp@;
        proof {
            assert(zombie_type.model() == m.zombie_type);
            lemma_seq_assoc(o0, p3, e4);
            assert(o4 == o0 + p4);
        }
        match zombie_id.put_be(&mut tmp) {
            Ok(()) => {},
            Err(e) => {
                return Err(e);
            },
        };
        let ghost o5 = tmp@;
        proof {
            assert(zombie_id.model() == m.zombie_id);
            lemma_seq_assoc(o0, p4, e5);
            assert(o5 == o0 + p5);
        }
        out.append(&mut tmp);
        proof {
            assert(Self::enc_model(m) == p5);
            assert(o0 + p5 =~= p5);
            assert(out@ == old(out)@ + Self::enc_model(m));
        }
        Ok(())
    }

    #[verifier::rlimit(100)]
    #[verifier::spinoff_prover]
    proof fn lemma_dec_enc(m: DeathModel, rest: Seq<u8>) {
        let e1 = <RLE<String, u16> as NetworkAdapter>::enc_model(m.account_id);
        let e2 = <u32 as NetworkAdapter>::enc_model(m.char_id);
        let e3 = <RLE<String, u16> as NetworkAdapter>::enc_model(m.killed_by);
        let e4 = <u32 as NetworkAdapter>::enc_model(m.zombie_type);
        let e5 = <u32 as NetworkAdapter>::enc_model(m.zombie_id);
        let p1 = e1;
        let p2 = p1 + e2;
        let p3 = p2 + e3;
        let p4 = p3 + e4;
        let p5 = p4 + e5;
        assert(Self::enc_model(m) == p5);
        let r5 = rest;
        let r4 = e5 + r5;
        let r3 = e4 + r4;
        let r2 = e3 + r3;
        let r1 = e2 + r2;
        let b = Self::enc_model(m) + rest;
        lemma_seq_assoc(p4, e5, r5);
        assert(p5 + r5 == p4 + r4);
        lemma_seq_assoc(p3, e4, r4);
        assert(p4 + r4 == p3 + r3);
        lemma_seq_assoc(p2, e3, r3);
        assert(p3 + r3 == p2 + r2);
        lemma_seq_assoc(p1, e2, r2);
        assert(p2 + r2 == p1 + r1);
        assert(b == e1 + r1);
        <RLE<String, u16> as NetworkAdapter>::lemma_dec_enc(m.account_id, r1);
        <u32 as NetworkAdapter>::lemma_dec_enc(m.char_id, r2);
        <RLE<String, u16> as NetworkAdapter>::lemma_dec_enc(m.killed_by, r3);
        <u32 as NetworkAdapter>::lemma_dec_enc(m.zombie_type, r4);
        <u32 as NetworkAdapter>::lemma_dec_enc(m.zombie_id, r5);
        let c1 = b.skip(e1.len() as int);
        lemma_skip_concat(e1, r1);
        assert(c1 == r1);
        let c2 = c1.skip(e2.len() as int);
        lemma_skip_concat(e2, r2);
        assert(c2 == r2);
        let c3 = c2.skip(e3.len() as int);
        lemma_skip_concat(e3, r3);
        assert(c3 == r3);
        let c4 = c3.skip(e4.len() as int);
        lemma_skip_concat(e4, r4);
        assert(c4 == r4);
        assert(Self::enc_model(m).len() == e1.len() + e2.len() + e3.len() + e4.len() + e5.len());
        assert(DeathModel { account_id: m.account_id, char_id: m.char_id, killed_by: m.killed_by, zombie_type: m.zombie_type, zombie_id: m.zombie_id } =~= m);
    }

    #[verifier::rlimit(100)]
    #[verifier::spinoff_prover]
    proof fn lemma_enc_dec(b: Seq<u8>, m: DeathModel, n: int) {
        let (g1, n1) = <RLE<String, u16> as NetworkAdapter>::dec(b)->Ok_0;
        <RLE<String, u16> as NetworkAdapter>::lemma_enc_dec(b, g1, n1);
        let b1 = b.skip(n1);
        let (g2, n2) = <u32 as NetworkAdapter>::dec(b1)->Ok_0;
        <u32 as NetworkAdapter>::lemma_enc_dec(b1, g2, n2);
        let b2 = b1.skip(n2);
        let (g3, n3) = <RLE<String, u16> as NetworkAdapter>::dec(b2)->Ok_0;
        <RLE<String, u16> as NetworkAdapter>::lemma_enc_dec(b2, g3, n3);
        let b3 = b2.skip(n3);
        let (g4, n4) = <u32 as NetworkAdapter>::dec(b3)->Ok_0;
        <u32 as NetworkAdapter>::lemma_enc_dec(b3, g4, n4);
        let b4 = b3.skip(n4);
        let (g5, n5) = <u32 as NetworkAdapter>::dec(b4)->Ok_0;
        <u32 as NetworkAdapter>::lemma_enc_dec(b4, g5, n5);
        lemma_skip_skip(b, n1, n2);
        assert(b2 == b.skip(n1 + n2));
        lemma_skip_skip(b, n1 + n2, n3);
        assert(b3 == b.skip(n1 + n2 + n3));
        lemma_skip_skip(b, n1 + n2 + n3, n4);
        assert(b4 == b.skip(n1 + n2 + n3 + n4));
        assert(n == n1 + n2 + n3 + n4 + n5);
        assert(m.account_id == g1);
        assert(m.char_id == g2);
        assert(m.killed_by == g3);
        assert(m.zombie_type == g4);
        assert(m.zombie_id == g5);
        if Self::canon(b) {
            let s1 = n1;
            let s2 = s1 + n2;
            let s3 = s2 + n3;
            let s4 = s3 + n4;
            let s5 = s4 + n5;
            let q1 = <RLE<String, u16> as NetworkAdapter>::enc_model(m.account_id);
            assert(q1 == b.take(s1));
            lemma_take_concat(b, s1, n2);
            let q2 = q1 + <u32 as NetworkAdapter>::enc_model(m.char_id);
            assert(q2 == b.take(s2));
            lemma_take_concat(b, s2, n3);
            let q3 = q2 + <RLE<String, u16> as NetworkAdapter>::enc_model(m.killed_by);
            assert(q3 == b.take(s3));
            lemma_take_concat(b, s3, n4);
            let q4 = q3 + <u32 as NetworkAdapter>::enc_model(m.zombie_type);
            assert(q4 == b.take(s4));
            lemma_take_concat(b, s4, n5);
            let q5 = q4 + <u32 as NetworkAdapter>::enc_model(m.zombie_id);
            assert(q5 == b.take(s5));
            assert(Self::enc_model(m) == q5);
            assert(Self::enc_model(m) == b.take(n));
        }
    }
}

#[verifier::ext_equal]
#[derive(Debug, PartialEq, Clone)]
pub struct DeletePet {
    pub pet_id: u32,
}

impl NetworkAdapter for DeletePet {
    type Model = DeletePet;

    open spec fn model(self) -> DeletePet {
        self
    }

    open spec fn enc_model(m: DeletePet) -> Seq<u8> {
        <u32 as NetworkAdapter>::enc_model(m.pet_id)
    }

    open spec fn valid_model(m: DeletePet) -> bool {
        <u32 as NetworkAdapter>::valid_model(m.pet_id)
    }

    closed spec fn dec(b: Seq<u8>) -> Result<(DeletePet, int), Error> {
        match <u32 as NetworkAdapter>::dec(b) {
            Ok((g1, n1)) => {
                Ok((DeletePet { pet_id: g1 }, n1))
            },
            Err(e) => Err(e),
        }
    }

    closed spec fn canon(b: Seq<u8>) -> bool {
        match <u32 as NetworkAdapter>::dec(b) {
            Ok((g1, n1)) => <u32 as NetworkAdapter>::canon(b) && {
                true
            },
            Err(e) => true,
        }
    }

    fn get_be(r: &mut Reader) -> (res: Result<DeletePet, Error>) {
        let ghost b = old(r).remaining_bytes();
        let save = r.position();
        let x1 = match <u32 as NetworkAdapter>::get_be(r) {
            Ok(v) => v,
            Err(e) => {
                r.seek(save);
                return Err(e);
            },
        };
        proof {
            let (g1, n1) = <u32 as NetworkAdapter>::dec(b)->Ok_0;
        }
        Ok(DeletePet { pet_id: x1 })
    }

    fn put_be(self, out: &mut Vec<u8>) -> (res: Result<(), Error>) {
        let ghost m = self.model();
        let DeletePet { pet_id } = self;
        let ghost e1 = <u32 as NetworkAdapter>::enc_model(m.pet_id);
        let ghost p1 = e1;
        let mut tmp: Vec<u8> = Vec::new();
        let ghost o0 = tmp@;
        match pet_id.put_be(&mut tmp) {
            Ok(()) => {},
            Err(e) => {
                return Err(e);
            },
        };
        let ghost o1 = tmp@;
        proof {
            assert(pet_id == m.pet_id);
            assert(o1 == o0 + p1);
        }
        out.append(&mut tmp);
        proof {
            assert(Self::enc_model(m) == p1);
            assert(o0 + p1 =~= p1);
            assert(out@ == old(out)@ + Self::enc_model(m));
        }
        Ok(())
    }

    proof fn lemma_dec_enc(m: DeletePet, rest: Seq<u8>) {
        let e1 = <u32 as NetworkAdapter>::enc_model(m.pet_id);
        let p1 = e1;
        assert(Self::enc_model(m) == p1);
        let r1 = rest;
        let b = Self::enc_model(m) + rest;
        assert(b == e1 + r1);
        <u32 as NetworkAdapter>::lemma_dec_enc(m.pet_id, r1);
        assert(Self::enc_model(m).len() == e1.len());
        assert(DeletePet { pet_id: m.pet_id } =~= m);
    }

    proof fn lemma_enc_dec(b: Seq<u8>, m: DeletePet, n: int) {
        let (g1, n1) = <u32 as NetworkAdapter>::dec(b)->Ok_0;
        <u32 as NetworkAdapter>::lemma_enc_dec(b, g1, n1);
        assert(n == n1);
        assert(m.pet_id == g1);
        if Self::canon(b) {
            let s1 = n1;
            let q1 = <u32 as NetworkAdapter>::enc_model(m.pet_id);
            assert(q1 == b.take(s1));
            assert(Self::enc_model(m) == q1);
            assert(Self::enc_model(m) == b.take(n));
        }
    }
}

#[verifier::ext_equal]
#[derive(Debug, PartialEq, Clone)]
pub struct EvolvePet {
    pub pet_id: u32,
    pub initial_skin: u32,
    pub final_skin: u32,
}

impl NetworkAdapter for EvolvePet {
    type Model = EvolvePet;

    open spec fn model(self) -> EvolvePet {
        self
    }

    open spec fn enc_model(m: EvolvePet) -> Seq<u8> {
        <u32 as NetworkAdapter>::enc_model(m.pet_id) + <u32 as NetworkAdapter>::enc_model(m.initial_skin) + <u32 as NetworkAdapter>::enc_model(m.final_skin)
    }

    open spec fn valid_model(m: EvolvePet) -> bool {
        <u32 as NetworkAdapter>::valid_model(m.pet_id) && <u32 as NetworkAdapter>::valid_model(m.initial_skin) && <u32 as NetworkAdapter>::valid_model(m.final_skin)
    }

    closed spec fn dec(b: Seq<u8>) -> Result<(EvolvePet, int), Error> {
        match <u32 as NetworkAdapter>::dec(b) {
            Ok((g1, n1)) => {
                let b1 = b.skip(n1);
                match <u32 as NetworkAdapter>::dec(b1) {
                    Ok((g2, n2)) => {
                        let b2 = b1.skip(n2);
                        match <u32 as NetworkAdapter>::dec(b2) {
                            Ok((g3, n3)) => {
                                Ok((EvolvePet { pet_id: g1, initial_skin: g2, final_skin: g3 }, n1 + n2 + n3))
                            },
                            Err(e) => Err(e),
                        }
                    },
                    Err(e) => Err(e),
                }
            },
            Err(e) => Err(e),
        }
    }

    closed spec fn canon(b: Seq<u8>) -> bool {
        match <u32 as NetworkAdapter>::dec(b) {
            Ok((g1, n1)) => <u32 as NetworkAdapter>::canon(b) && {
                let b1 = b.skip(n1);
                match <u32 as NetworkAdapter>::dec(b1) {
                    Ok((g2, n2)) => <u32 as NetworkAdapter>::canon(b1) && {
                        let b2 = b1.skip(n2);
                        match <u32 as NetworkAdapter>::dec(b2) {
                            Ok((g3, n3)) => <u32 as NetworkAdapter>::canon(b2) && {
                                true
                            },
                            Err(e) => true,
                        }
                    },
                    Err(e) => true,
                }
            },
            Err(e) => true,
        }
    }

    fn get_be(r: &mut Reader) -> (res: Result<EvolvePet, Error>) {
        let ghost b = old(r).remaining_bytes();
        let save = r.position();
        let x1 = match <u32 as NetworkAdapter>::get_be(r) {
            Ok(v) => v,
            Err(e) => {
                r.seek(save);
                return Err(e);
            },
        };
        let x2 = match <u32 as NetworkAdapter>::get_be(r) {
            Ok(v) => v,
            Err(e) => {
                r.seek(save);
                return Err(e);
            },
        };
        let x3 = match <u32 as NetworkAdapter>::get_be(r) {
            Ok(v) => v,
            Err(e) => {
                r.seek(save);
                return Err(e);
            },
        };
        proof {
            let (g1, n1) = <u32 as NetworkAdapter>::dec(b)->Ok_0;
            let b1 = b.skip(n1);
            let (g2, n2) = <u32 as NetworkAdapter>::dec(b1)->Ok_0;
            let b2 = b1.skip(n2);
            let (g3, n3) = <u32 as NetworkAdapter>::dec(b2)->Ok_0;
            lemma_skip_skip(b, n1, n2);
            assert(b2 == b.skip(n1 + n2));
            lemma_skip_skip(b, n1 + n2, n3);
            assert(b2.skip(n3) == b.skip(n1 + n2 + n3));
        }
        Ok(EvolvePet { pet_id: x1, initial_skin: x2, final_skin: x3 })
    }

    fn put_be(self, out: &mut Vec<u8>) -> (res: Result<(), Error>) {
        let ghost m = self.model();
        let EvolvePet { pet_id, initial_skin, final_skin } = self;
        let ghost e1 = <u32 as NetworkAdapter>::enc_model(m.pet_id);
        let ghost e2 = <u32 as NetworkAdapter>::enc_model(m.initial_skin);
        let ghost e3 = <u32 as NetworkAdapter>::enc_model(m.final_skin);
        let ghost p1 = e1;
        let ghost p2 = p1 + e2;
        let ghost p3 = p2 + e3;
        let mut tmp: Vec<u8> = Vec::new();
        let ghost o0 = tmp@;
        match pet_id.put_be(&mut tmp) {
            Ok(()) => {},
            Err(e) => {
                return Err(e);
            },
        };
        let ghost o1 = tmp@;
        proof {
            assert(pet_id == m.pet_id);
            assert(o1 == o0 + p1);
        }
        match initial_skin.put_be(&mut tmp) {
            Ok(()) => {},
            Err(e) => {
                return Err(e);
            },
        };
        let ghost o2 = tmp@;
        proof {
            assert(initial_skin == m.initial_skin);
            lemma_seq_assoc(o0, p1, e2);
            assert(o2 == o0 + p2);
        }
        match final_skin.put_be(&mut tmp) {
            Ok(()) => {},
            Err(e) => {
                return Err(e);
            },
        };
        let ghost o3 = tmp@;
        proof {
            assert(final_skin == m.final_skin);
            lemma_seq_assoc(o0, p2, e3);
            assert(o3 == o0 + p3);
        }
        out.append(&mut tmp);
        proof {
            assert(Self::enc_model(m) == p3);
            assert(o0 + p3 =~= p3);
            assert(out@ == old(out)@ + Self::enc_model(m));
        }
        Ok(())
    }

    proof fn lemma_dec_enc(m: EvolvePet, rest: Seq<u8>) {
        let e1 = <u32 as NetworkAdapter>::enc_model(m.pet_id);
        let e2 = <u32 as NetworkAdapter>::enc_model(m.initial_skin);
        let e3 = <u32 as NetworkAdapter>::enc_model(m.final_skin);
        let p1 = e1;
        let p2 = p1 + e2;
        let p3 = p2 + e3;
        assert(Self::enc_model(m) == p3);
        let r3 = rest;
        let r2 = e3 + r3;
        let r1 = e2 + r2;
        let b = Self::enc_model(m) + rest;
        lemma_seq_assoc(p2, e3, r3);
        assert(p3 + r3 == p2 + r2);
        lemma_seq_assoc(p1, e2, r2);
        assert(p2 + r2 == p1 + r1);
        assert(b == e1 + r1);
        <u32 as NetworkAdapter>::lemma_dec_enc(m.pet_id, r1);
        <u32 as NetworkAdapter>::lemma_dec_enc(m.initial_skin, r2);
        <u32 as NetworkAdapter>::lemma_dec_enc(m.final_skin, r3);
        let c1 = b.skip(e1.len() as int);
        lemma_skip_concat(e1, r1);
        assert(c1 == r1);
        let c2 = c1.skip(e2.len() as int);
        lemma_skip_concat(e2, r2);
        assert(c2 == r2);
        assert(Self::enc_model(m).len() == e1.len() + e2.len() + e3.len());
        assert(EvolvePet { pet_id: m.pet_id, initial_skin: m.initial_skin, final_skin: m.final_skin } =~= m);
    }

    proof fn lemma_enc_dec(b: Seq<u8>, m: EvolvePet, n: int) {
        let (g1, n1) = <u32 as NetworkAdapter>::dec(b)->Ok_0;
        <u32 as NetworkAdapter>::lemma_enc_dec(b, g1, n1);
        let b1 = b.skip(n1);
        let (g2, n2) = <u32 as NetworkAdapter>::dec(b1)->Ok_0;
        <u32 as NetworkAdapter>::lemma_enc_dec(b1, g2, n2);
        let b2 = b1.skip(n2);
        let (g3, n3) = <u32 as NetworkAdapter>::dec(b2)->Ok_0;
        <u32 as NetworkAdapter>::lemma_enc_dec(b2, g3, n3);
        lemma_skip_skip(b, n1, n2);
        assert(b2 == b.skip(n1 + n2));
        assert(n == n1 + n2 + n3);
        assert(m.pet_id == g1);
        assert(m.initial_skin == g2);
        assert(m.final_skin == g3);
        if Self::canon(b) {
            let s1 = n1;
            let s2 = s1 + n2;
            let s3 = s2 + n3;
            let q1 = <u32 as NetworkAdapter>::enc_model(m.pet_id);
            assert(q1 == b.take(s1));
            lemma_take_concat(b, s1, n2);
            let q2 = q1 + <u32 as NetworkAdapter>::enc_model(m.initial_skin);
            assert(q2 == b.take(s2));
            lemma_take_concat(b, s2, n3);
            let q3 = q2 + <u32 as NetworkAdapter>::enc_model(m.final_skin);
            assert(q3 == b.take(s3));
            assert(Self::enc_model(m) == q3);
            assert(Self::enc_model(m) == b.take(n));
        }
    }
}

#[verifier::ext_equal]
#[derive(Debug, PartialEq, Clone)]
pub struct Failure {
    pub error_id: u32,
    pub error_description: RLE<String, u16>,
}

/// The mathematical model of a decoded `Failure`.
#[verifier::ext_equal]
pub struct FailureModel {
    pub error_id: u32,
    pub error_description: Seq<char>,
}

impl NetworkAdapter for Failure {
    type Model = FailureModel;

    open spec fn model(self) -> FailureModel {
        FailureModel {
            error_id: self.error_id.model(),
            error_description: self.error_description.model(),
        }
    }

    open spec fn enc_model(m: FailureModel) -> Seq<u8> {
        <u32 as NetworkAdapter>::enc_model(m.error_id) + <RLE<String, u16> as NetworkAdapter>::enc_model(m.error_description)
    }

    open spec fn valid_model(m: FailureModel) -> bool {
        <u32 as NetworkAdapter>::valid_model(m.error_id) && <RLE<String, u16> as NetworkAdapter>::valid_model(m.error_description)
    }

    closed spec fn dec(b: Seq<u8>) -> Result<(FailureModel, int), Error> {
        match <u32 as NetworkAdapter>::dec(b) {
            Ok((g1, n1)) => {
                let b1 = b.skip(n1);
                match <RLE<String, u16> as NetworkAdapter>::dec(b1) {
                    Ok((g2, n2)) => {
                        Ok((FailureModel { error_id: g1, error_description: g2 }, n1 + n2))
                    },
                    Err(e) => Err(e),
                }
            },
            Err(e) => Err(e),
        }
    }

    closed spec fn canon(b: Seq<u8>) -> bool {
        match <u32 as NetworkAdapter>::dec(b) {
            Ok((g1, n1)) => <u32 as NetworkAdapter>::canon(b) && {
                let b1 = b.skip(n1);
                match <RLE<String, u16> as NetworkAdapter>::dec(b1) {
                    Ok((g2, n2)) => <RLE<String, u16> as NetworkAdapter>::canon(b1) && {
                        true
                    },
                    Err(e) => true,
                }
            },
            Err(e) => true,
        }
    }

    fn get_be(r: &mut Reader) -> (res: Result<Failure, Error>) {
        let ghost b = old(r).remaining_bytes();
        let save = r.position();
        let x1 = match <u32 as NetworkAdapter>::get_be(r) {
            Ok(v) => v,
            Err(e) => {
                r.seek(save);
                return Err(e);
            },
        };
        let x2 = match <RLE<String, u16> as NetworkAdapter>::get_be(r) {
            Ok(v) => v,
            Err(e) => {
                r.seek(save);
                return Err(e);
            },
        };
        proof {
            let (g1, n1) = <u32 as NetworkAdapter>::dec(b)->Ok_0;
            let b1 = b.skip(n1);
            let (g2, n2) = <RLE<String, u16> as NetworkAdapter>::dec(b1)->Ok_0;
            lemma_skip_skip(b, n1, n2);
            assert(b1.skip(n2) == b.skip(n1 + n2));
        }
        Ok(Failure { error_id: x1, error_description: x2 })
    }

    fn put_be(self, out: &mut Vec<u8>) -> (res: Result<(), Error>) {
        let ghost m = self.model();
        let Failure { error_id, error_description } = self;
        let ghost e1 = <u32 as NetworkAdapter>::enc_model(m.error_id);
        let ghost e2 = <RLE<String, u16> as NetworkAdapter>::enc_model(m.error_description);
        let ghost p1 = e1;
        let ghost p2 = p1 + e2;
        let mut tmp: Vec<u8> = Vec::new();
        let ghost o0 = tmp@;
        match error_id.put_be(&mut tmp) {
            Ok(()) => {},
            Err(e) => {
                return Err(e);
            },
        };
        let ghost o1 = tmp@;
        proof {
            assert(error_id.model() == m.error_id);
            assert(o1 == o0 + p1);
        }
        match error_description.put_be(&mut tmp) {
            Ok(()) => {},
            Err(e) => {
                return Err(e);
            },
        };
        let ghost o2 = tmp@;
        proof {
            assert(error_description.model() == m.error_description);
            lemma_seq_assoc(o0, p1, e2);
            assert(o2 == o0 + p2);
        }
        out.append(&mut tmp);
        proof {
            assert(Self::enc_model(m) == p2);
            assert(o0 + p2 =~= p2);
            assert(out@ == old(out)@ + Self::enc_model(m));
        }
        Ok(())
    }

    proof fn lemma_dec_enc(m: FailureModel, rest: Seq<u8>) {
        let e1 = <u32 as NetworkAdapter>::enc_model(m.error_id);
        let e2 = <RLE<String, u16> as NetworkAdapter>::enc_model(m.error_description);
        let p1 = e1;
        let p2 = p1 + e2;
        assert(Self::enc_model(m) == p2);
        let r2 = rest;
        let r1 = e2 + r2;
        let b = Self::enc_model(m) + rest;
        lemma_seq_assoc(p1, e2, r2);
        assert(p2 + r2 == p1 + r1);
        assert(b == e1 + r1);
        <u32 as NetworkAdapter>::lemma_dec_enc(m.error_id, r1);
        <RLE<String, u16> as NetworkAdapter>::lemma_dec_enc(m.error_description, r2);
        let c1 = b.skip(e1.len() as int);
        lemma_skip_concat(e1, r1);
        assert(c1 == r1);
        assert(Self::enc_model(m).len() == e1.len() + e2.len());
        assert(FailureModel { error_id: m.error_id, error_description: m.error_description } =~= m);
    }

    proof fn lemma_enc_dec(b: Seq<u8>, m: FailureModel, n: int) {
        let (g1, n1) = <u32 as NetworkAdapter>::dec(b)->Ok_0;
        <u32 as NetworkAdapter>::lemma_enc_dec(b, g1, n1);
        let b1 = b.skip(n1);
        let (g2, n2) = <RLE<String, u16> as NetworkAdapter>::dec(b1)->Ok_0;
        <RLE<String, u16> as NetworkAdapter>::lemma_enc_dec(b1, g2, n2);
        assert(n == n1 + n2);
        assert(m.error_id == g1);
        assert(m.error_description == g2);
        if Self::canon(b) {
            let s1 = n1;
            let s2 = s1 + n2;
            let q1 = <u32 as NetworkAdapter>::enc_model(m.error_id);
            assert(q1 == b.take(s1));
            lemma_take_concat(b, s1, n2);
            let q2 = q1 + <RLE<String, u16> as NetworkAdapter>::enc_model(m.error_description);
            assert(q2 == b.take(s2));
            assert(Self::enc_model(m) == q2);
            assert(Self::enc_model(m) == b.take(n));
        }
    }
}

#[verifier::ext_equal]
#[derive(Debug, PartialEq, Clone)]
pub struct File {
    pub filename: RLE<String, u16>,
    pub file: RLE<String, u32>,
}

/// The mathematical model of a decoded `File`.
#[verifier::ext_equal]
pub struct FileModel {
    pub filename: Seq<char>,
    pub file: Seq<char>,
}

impl NetworkAdapter for File {
    type Model = FileModel;

    open spec fn model(self) -> FileModel {
        FileModel {
            filename: self.filename.model(),
            file: self.file.model(),
        }
    }

    open spec fn enc_model(m: FileModel) -> Seq<u8> {
        <RLE<String, u16> as NetworkAdapter>::enc_model(m.filename) + <RLE<String, u32> as NetworkAdapter>::enc_model(m.file)
    }

    open spec fn valid_model(m: FileModel) -> bool {
        <RLE<String, u16> as NetworkAdapter>::valid_model(m.filename) && <RLE<String, u32> as NetworkAdapter>::valid_model(m.file)
    }

    closed spec fn dec(b: Seq<u8>) -> Result<(FileModel, int), Error> {
        match <RLE<String, u16> as NetworkAdapter>::dec(b) {
            Ok((g1, n1)) => {
                let b1 = b.skip(n1);
                match <RLE<String, u32> as NetworkAdapter>::dec(b1) {
                    Ok((g2, n2)) => {
                        Ok((FileModel { filename: g1, file: g2 }, n1 + n2))
                    },
                    Err(e) => Err(e),
                }
            },
            Err(e) => Err(e),
        }
    }

    closed spec fn canon(b: Seq<u8>) -> bool {
        match <RLE<String, u16> as NetworkAdapter>::dec(b) {
            Ok((g1, n1)) => <RLE<String, u16> as NetworkAdapter>::canon(b) && {
                let b1 = b.skip(n1);
                match <RLE<String, u32> as NetworkAdapter>::dec(b1) {
                    Ok((g2, n2)) => <RLE<String, u32> as NetworkAdapter>::canon(b1) && {
                        true
                    },
                    Err(e) => true,
                }
            },
            Err(e) => true,
        }
    }

    fn get_be(r: &mut Reader) -> (res: Result<File, Error>) {
        let ghost b = old(r).remaining_bytes();
        let save = r.position();
        let x1 = match <RLE<String, u16> as NetworkAdapter>::get_be(r) {
            Ok(v) => v,
            Err(e) => {
                r.seek(save);
                return Err(e);
            },
        };
        let x2 = match <RLE<String, u32> as NetworkAdapter>::get_be(r) {
            Ok(v) => v,
            Err(e) => {
                r.seek(save);
                return Err(e);
            },
        };
        proof {
            let (g1, n1) = <RLE<String, u16> as NetworkAdapter>::dec(b)->Ok_0;
            let b1 = b.skip(n1);
            let (g2, n2) = <RLE<String, u32> as NetworkAdapter>::dec(b1)->Ok_0;
            lemma_skip_skip(b, n1, n2);
            assert(b1.skip(n2) == b.skip(n1 + n2));
        }
        Ok(File { filename: x1, file: x2 })
    }

    fn put_be(self, out: &mut Vec<u8>) -> (res: Result<(), Error>) {
        let ghost m = self.model();
        let File { filename, file } = self;
        let ghost e1 = <RLE<String, u16> as NetworkAdapter>::enc_model(m.filename);
        let ghost e2 = <RLE<String, u32> as NetworkAdapter>::enc_model(m.file);
        let ghost p1 = e1;
        let ghost p2 = p1 + e2;
        let mut tmp: Vec<u8> = Vec::new();
        let ghost o0 = tmp@;
        match filename.put_be(&mut tmp) {
            Ok(()) => {},
            Err(e) => {
                return Err(e);
            },
        };
        let ghost o1 = tmp@;
        proof {
            assert(filename.model() == m.filename);
            assert(o1 == o0 + p1);
        }
        match file.put_be(&mut tmp) {
            Ok(()) => {},
            Err(e) => {
                return Err(e);
            },
        };
        let ghost o2 = tmp@;
        proof {
            assert(file.model() == m.file);
            lemma_seq_assoc(o0, p1, e2);
            assert(o2 == o0 + p2);
        }
        out.append(&mut tmp);
        proof {
            assert(Self::enc_model(m) == p2);
            assert(o0 + p2 =~= p2);
            assert(out@ == old(out)@ + Self::enc_model(m));
        }
        Ok(())
    }

    proof fn lemma_dec_enc(m: FileModel, rest: Seq<u8>) {
        let e1 = <RLE<String, u16> as NetworkAdapter>::enc_model(m.filename);
        let e2 = <RLE<String, u32> as NetworkAdapter>::enc_model(m.file);
        let p1 = e1;
        let p2 = p1 + e2;
        assert(Self::enc_model(m) == p2);
        let r2 = rest;
        let r1 = e2 + r2;
        let b = Self::enc_model(m) + rest;
        lemma_seq_assoc(p1, e2, r2);
        assert(p2 + r2 == p1 + r1);
        assert(b == e1 + r1);
        <RLE<String, u16> as NetworkAdapter>::lemma_dec_enc(m.filename, r1);
        <RLE<String, u32> as NetworkAdapter>::lemma_dec_enc(m.file, r2);
        let c1 = b.skip(e1.len() as int);
        lemma_skip_concat(e1, r1);
        assert(c1 == r1);
        assert(Self::enc_model(m).len() == e1.len() + e2.len());
        assert(FileModel { filename: m.filename, file: m.file } =~= m);
    }

    proof fn lemma_enc_dec(b: Seq<u8>, m: FileModel, n: int) {
        let (g1, n1) = <RLE<String, u16> as NetworkAdapter>::dec(b)->Ok_0;
        <RLE<String, u16> as NetworkAdapter>::lemma_enc_dec(b, g1, n1);
        let b1 = b.skip(n1);
        let (g2, n2) = <RLE<String, u32> as NetworkAdapter>::dec(b1)->Ok_0;
        <RLE<String, u32> as NetworkAdapter>::lemma_enc_dec(b1, g2, n2);
        assert(n == n1 + n2);
        assert(m.filename == g1);
        assert(m.file == g2);
        if Self::canon(b) {
            let s1 = n1;
            let s2 = s1 + n2;
            let q1 = <RLE<String, u16> as NetworkAdapter>::enc_model(m.filename);
            assert(q1 == b.take(s1));
            lemma_take_concat(b, s1, n2);
            let q2 = q1 + <RLE<String, u32> as NetworkAdapter>::enc_model(m.file);
            assert(q2 == b.take(s2));
            assert(Self::enc_model(m) == q2);
            assert(Self::enc_model(m) == b.take(n));
        }
    }
}

#[verifier::ext_equal]
#[derive(Debug, PartialEq, Clone)]
pub struct GlobalNotification {
    pub notification_type: u32,
    pub text: RLE<String, u16>,
}

/// The mathematical model of a decoded `GlobalNotification`.
#[verifier::ext_equal]
pub struct GlobalNotificationModel {
    pub notification_type: u32,
    pub text: Seq<char>,
}

impl NetworkAdapter for GlobalNotification {
    type Model = GlobalNotificationModel;

    open spec fn model(self) -> GlobalNotificationModel {
        GlobalNotificationModel {
            notification_type: self.notification_type.model(),
            text: self.text.model(),
        }
    }

    open spec fn enc_model(m: GlobalNotificationModel) -> Seq<u8> {
        <u32 as NetworkAdapter>::enc_model(m.notification_type) + <RLE<String, u16> as NetworkAdapter>::enc_model(m.text)
    }

    open spec fn valid_model(m: GlobalNotificationModel) -> bool {
        <u32 as NetworkAdapter>::valid_model(m.notification_type) && <RLE<String, u16> as NetworkAdapter>::valid_model(m.text)
    }

    closed spec fn dec(b: Seq<u8>) -> Result<(GlobalNotificationModel, int), Error> {
        match <u32 as NetworkAdapter>::dec(b) {
            Ok((g1, n1)) => {
                let b1 = b.skip(n1);
                match <RLE<String, u16> as NetworkAdapter>::dec(b1) {
                    Ok((g2, n2)) => {
                        Ok((GlobalNotificationModel { notification_type: g1, text: g2 }, n1 + n2))
                    },
                    Err(e) => Err(e),
                }
            },
            Err(e) => Err(e),
        }
    }

    closed spec fn canon(b: Seq<u8>) -> bool {
        match <u32 as NetworkAdapter>::dec(b) {
            Ok((g1, n1)) => <u32 as NetworkAdapter>::canon(b) && {
                let b1 = b.skip(n1);
                match <RLE<String, u16> as NetworkAdapter>::dec(b1) {
                    Ok((g2, n2)) => <RLE<String, u16> as NetworkAdapter>::canon(b1) && {
                        true
                    },
                    Err(e) => true,
                }
            },
            Err(e) => true,
        }
    }

    fn get_be(r: &mut Reader) -> (res: Result<GlobalNotification, Error>) {
        let ghost b = old(r).remaining_bytes();
        let save = r.position();
        let x1 = match <u32 as NetworkAdapter>::get_be(r) {
            Ok(v) => v,
            Err(e) => {
                r.seek(save);
                return Err(e);
            },
        };
        let x2 = match <RLE<String, u16> as NetworkAdapter>::get_be(r) {
            Ok(v) => v,
            Err(e) => {
                r.seek(save);
                return Err(e);
            },
        };
        proof {
            let (g1, n1) = <u32 as NetworkAdapter>::dec(b)->Ok_0;
            let b1 = b.skip(n1);
            let (g2, n2) = <RLE<String, u16> as NetworkAdapter>::dec(b1)->Ok_0;
            lemma_skip_skip(b, n1, n2);
            assert(b1.skip(n2) == b.skip(n1 + n2));
        }
        Ok(GlobalNotification { notification_type: x1, text: x2 })
    }

    fn put_be(self, out: &mut Vec<u8>) -> (res: Result<(), Error>) {
        let ghost m = self.model();
        let GlobalNotification { notification_type, text } = self;
        let ghost e1 = <u32 as NetworkAdapter>::enc_model(m.notification_type);
        let ghost e2 = <RLE<String, u16> as NetworkAdapter>::enc_model(m.text);
        let ghost p1 = e1;
        let ghost p2 = p1 + e2;
        let mut tmp: Vec<u8> = Vec::new();
        let ghost o0 = tmp@;
        match notification_type.put_be(&mut tmp) {
            Ok(()) => {},
            Err(e) => {
                return Err(e);
            },
        };
        let ghost o1 = tmp@;
        proof {
            assert(notification_type.model() == m.notification_type);
            assert(o1 == o0 + p1);
        }
        match text.put_be(&mut tmp) {
            Ok(()) => {},
            Err(e) => {
                return Err(e);
            },
        };
        let ghost o2 = tmp@;
        proof {
            assert(text.model() == m.text);
            lemma_seq_assoc(o0, p1, e2);
            assert(o2 == o0 + p2);
        }
        out.append(&mut tmp);
        proof {
            assert(Self::enc_model(m) == p2);
            assert(o0 + p2 =~= p2);
            assert(out@ == old(out)@ + Self::enc_model(m));
        }
        Ok(())
    }

    proof fn lemma_dec_enc(m: GlobalNotificationModel, rest: Seq<u8>) {
        let e1 = <u32 as NetworkAdapter>::enc_model(m.notification_type);
        let e2 = <RLE<String, u16> as NetworkAdapter>::enc_model(m.text);
        let p1 = e1;
        let p2 = p1 + e2;
        assert(Self::enc_model(m) == p2);
        let r2 = rest;
        let r1 = e2 + r2;
        let b = Self::enc_model(m) + rest;
        lemma_seq_assoc(p1, e2, r2);
        assert(p2 + r2 == p1 + r1);
        assert(b == e1 + r1);
        <u32 as NetworkAdapter>::lemma_dec_enc(m.notification_type, r1);
        <RLE<String, u16> as NetworkAdapter>::lemma_dec_enc(m.text, r2);
        let c1 = b.skip(e1.len() as int);
        lemma_skip_concat(e1, r1);
        assert(c1 == r1);
        assert(Self::enc_model(m).len() == e1.len() + e2.len());
        assert(GlobalNotificationModel { notification_type: m.notification_type, text: m.text } =~= m);
    }

    proof fn lemma_enc_dec(b: Seq<u8>, m: GlobalNotificationModel, n: int) {
        let (g1, n1) = <u32 as NetworkAdapter>::dec(b)->Ok_0;
        <u32 as NetworkAdapter>::lemma_enc_dec(b, g1, n1);
        let b1 = b.skip(n1);
        let (g2, n2) = <RLE<String, u16> as NetworkAdapter>::dec(b1)->Ok_0;
        <RLE<String, u16> as NetworkAdapter>::lemma_enc_dec(b1, g2, n2);
        assert(n == n1 + n2);
        assert(m.notification_type == g1);
        assert(m.text == g2);
        if Self::canon(b) {
            let s1 = n1;
            let s2 = s1 + n2;
            let q1 = <u32 as NetworkAdapter>::enc_model(m.notification_type);
            assert(q1 == b.take(s1));
            lemma_take_concat(b, s1, n2);
            let q2 = q1 + <RLE<String, u16> as NetworkAdapter>::enc_model(m.text);
            assert(q2 == b.take(s2));
            assert(Self::enc_model(m) == q2);
            assert(Self::enc_model(m) == b.take(n));
        }
    }
}

#[verifier::ext_equal]
#[derive(Debug, PartialEq, Clone)]
pub struct Goto {
    pub object_id: u32,
    pub pos: WorldPosData,
}

impl NetworkAdapter for Goto {
    type Model = Goto;

    open spec fn model(self) -> Goto {
        self
    }

    open spec fn enc_model(m: Goto) -> Seq<u8> {
        <u32 as NetworkAdapter>::enc_model(m.object_id) + <WorldPosData as NetworkAdapter>::enc_model(m.pos)
    }

    open spec fn valid_model(m: Goto) -> bool {
        <u32 as NetworkAdapter>::valid_model(m.object_id) && <WorldPosData as NetworkAdapter>::valid_model(m.pos)
    }

    closed spec fn dec(b: Seq<u8>) -> Result<(Goto, int), Error> {
        match <u32 as NetworkAdapter>::dec(b) {
            Ok((g1, n1)) => {
                let b1 = b.skip(n1);
                match <WorldPosData as NetworkAdapter>::dec(b1) {
                    Ok((g2, n2)) => {
                        Ok((Goto { object_id: g1, pos: g2 }, n1 + n2))
                    },
                    Err(e) => Err(e),
                }
            },
            Err(e) => Err(e),
        }
    }

    closed spec fn canon(b: Seq<u8>) -> bool {
        match <u32 as NetworkAdapter>::dec(b) {
            Ok((g1, n1)) => <u32 as NetworkAdapter>::canon(b) && {
                let b1 = b.skip(n1);
                match <WorldPosData as NetworkAdapter>::dec(b1) {
                    Ok((g2, n2)) => <WorldPosData as NetworkAdapter>::canon(b1) && {
                        true
                    },
                    Err(e) => true,
                }
            },
            Err(e) => true,
        }
    }

    fn get_be(r: &mut Reader) -> (res: Result<Goto, Error>) {
        let ghost b = old(r).remaining_bytes();
        let save = r.position();
        let x1 = match <u32 as NetworkAdapter>::get_be(r) {
            Ok(v) => v,
            Err(e) => {
                r.seek(save);
                return Err(e);
            },
        };
        let x2 = match <WorldPosData as NetworkAdapter>::get_be(r) {
            Ok(v) => v,
            Err(e) => {
                r.seek(save);
                return Err(e);
            },
        };
        proof {
            let (g1, n1) = <u32 as NetworkAdapter>::dec(b)->Ok_0;
            let b1 = b.skip(n1);
            let (g2, n2) = <WorldPosData as NetworkAdapter>::dec(b1)->Ok_0;
            lemma_skip_skip(b, n1, n2);
            assert(b1.skip(n2) == b.skip(n1 + n2));
        }
        Ok(Goto { object_id: x1, pos: x2 })
    }

    fn put_be(self, out: &mut Vec<u8>) -> (res: Result<(), Error>) {
        let ghost m = self.model();
        let Goto { object_id, pos } = self;
        let ghost e1 = <u32 as NetworkAdapter>::enc_model(m.object_id);
        let ghost e2 = <WorldPosData as NetworkAdapter>::enc_model(m.pos);
        let ghost p1 = e1;
        let ghost p2 = p1 + e2;
        let mut tmp: Vec<u8> = Vec::new();
        let ghost o0 = tmp@;
        match object_id.put_be(&mut tmp) {
            Ok(()) => {},
            Err(e) => {
                return Err(e);
            },
        };
        let ghost o1 = tmp@;
        proof {
            assert(object_id == m.object_id);
            assert(o1 == o0 + p1);
        }
        match pos.put_be(&mut tmp) {
            Ok(()) => {},
            Err(e) => {
                return Err(e);
            },
        };
        let ghost o2 = tmp@;
        proof {
            assert(pos == m.pos);
            lemma_seq_assoc(o0, p1, e2);
            assert(o2 == o0 + p2);
        }
        out.append(&mut tmp);
        proof {
            assert(Self::enc_model(m) == p2);
            assert(o0 + p2 =~= p2);
            assert(out@ == old(out)@ + Self::enc_model(m));
        }
        Ok(())
    }

    proof fn lemma_dec_enc(m: Goto, rest: Seq<u8>) {
        let e1 = <u32 as NetworkAdapter>::enc_model(m.object_id);
        let e2 = <WorldPosData as NetworkAdapter>::enc_model(m.pos);
        let p1 = e1;
        let p2 = p1 + e2;
        assert(Self::enc_model(m) == p2);
        let r2 = rest;
        let r1 = e2 + r2;
        let b = Self::enc_model(m) + rest;
        lemma_seq_assoc(p1, e2, r2);
        assert(p2 + r2 == p1 + r1);
        assert(b == e1 + r1);
        <u32 as NetworkAdapter>::lemma_dec_enc(m.object_id, r1);
        <WorldPosData as NetworkAdapter>::lemma_dec_enc(m.pos, r2);
        let c1 = b.skip(e1.len() as int);
        lemma_skip_concat(e1, r1);
        assert(c1 == r1);
        assert(Self::enc_model(m).len() == e1.len() + e2.len());
        assert(Goto { object_id: m.object_id, pos: m.pos } =~= m);
    }

    proof fn lemma_enc_dec(b: Seq<u8>, m: Goto, n: int) {
        let (g1, n1) = <u32 as NetworkAdapter>::dec(b)->Ok_0;
        <u32 as NetworkAdapter>::lemma_enc_dec(b, g1, n1);
        let b1 = b.skip(n1);
        let (g2, n2) = <WorldPosData as NetworkAdapter>::dec(b1)->Ok_0;
        <WorldPosData as NetworkAdapter>::lemma_enc_dec(b1, g2, n2);
        assert(n == n1 + n2);
        assert(m.object_id == g1);
        assert(m.pos == g2);
        if Self::canon(b) {
            let s1 = n1;
            let s2 = s1 + n2;
            let q1 = <u32 as NetworkAdapter>::enc_model(m.object_id);
            assert(q1 == b.take(s1));
            lemma_take_concat(b, s1, n2);
            let q2 = q1 + <WorldPosData as NetworkAdapter>::enc_model(m.pos);
            assert(q2 == b.take(s2));
            assert(Self::enc_model(m) == q2);
            assert(Self::enc_model(m) == b.take(n));
        }
    }
}

#[verifier::ext_equal]
#[derive(Debug, PartialEq, Clone)]
pub struct GuildResult {
    pub success: bool,
    pub line_builder_json: RLE<String, u16>,
}

/// The mathematical model of a decoded `GuildResult`.
#[verifier::ext_equal]
pub struct GuildResultModel {
    pub success: bool,
    pub line_builder_json: Seq<char>,
}

impl NetworkAdapter for GuildResult {
    type Model = GuildResultModel;

    open spec fn model(self) -> GuildResultModel {
        GuildResultModel {
            success: self.success.model(),
            line_builder_json: self.line_builder_json.model(),
        }
    }

    open spec fn enc_model(m: GuildResultModel) -> Seq<u8> {
        <bool as NetworkAdapter>::enc_model(m.success) + <RLE<String, u16> as NetworkAdapter>::enc_model(m.line_builder_json)
    }

    open spec fn valid_model(m: GuildResultModel) -> bool {
        <bool as NetworkAdapter>::valid_model(m.success) && <RLE<String, u16> as NetworkAdapter>::valid_model(m.line_builder_json)
    }

    closed spec fn dec(b: Seq<u8>) -> Result<(GuildResultModel, int), Error> {
        match <bool as NetworkAdapter>::dec(b) {
            Ok((g1, n1)) => {
                let b1 = b.skip(n1);
                match <RLE<String, u16> as NetworkAdapter>::dec(b1) {
                    Ok((g2, n2)) => {
                        Ok((GuildResultModel { success: g1, line_builder_json: g2 }, n1 + n2))
                    },
                    Err(e) => Err(e),
                }
            },
            Err(e) => Err(e),
        }
    }

    closed spec fn canon(b: Seq<u8>) -> bool {
        match <bool as NetworkAdapter>::dec(b) {
            Ok((g1, n1)) => <bool as NetworkAdapter>::canon(b) && {
                let b1 = b.skip(n1);
                match <RLE<String, u16> as NetworkAdapter>::dec(b1) {
                    Ok((g2, n2)) => <RLE<String, u16> as NetworkAdapter>::canon(b1) && {
                        true
                    },
                    Err(e) => true,
                }
            },
            Err(e) => true,
        }
    }

    fn get_be(r: &mut Reader) -> (res: Result<GuildResult, Error>) {
        let ghost b = old(r).remaining_bytes();
        let save = r.position();
        let x1 = match <bool as NetworkAdapter>::get_be(r) {
            Ok(v) => v,
            Err(e) => {
                r.seek(save);
                return Err(e);
            },
        };
        let x2 = match <RLE<String, u16> as NetworkAdapter>::get_be(r) {
            Ok(v) => v,
            Err(e) => {
                r.seek(save);
                return Err(e);
            },
        };
        proof {
            let (g1, n1) = <bool as NetworkAdapter>::dec(b)->Ok_0;
            let b1 = b.skip(n1);
            let (g2, n2) = <RLE<String, u16> as NetworkAdapter>::dec(b1)->Ok_0;
            lemma_skip_skip(b, n1, n2);
            assert(b1.skip(n2) == b.skip(n1 + n2));
        }
        Ok(GuildResult { success: x1, line_builder_json: x2 })
    }

    fn put_be(self, out: &mut Vec<u8>) -> (res: Result<(), Error>) {
        let ghost m = self.model();
        let GuildResult { success, line_builder_json } = self;
        let ghost e1 = <bool as NetworkAdapter>::enc_model(m.success);
        let ghost e2 = <RLE<String, u16> as NetworkAdapter>::enc_model(m.line_builder_json);
        let ghost p1 = e1;
        let ghost p2 = p1 + e2;
        let mut tmp: Vec<u8> = Vec::new();
        let ghost o0 = tmp@;
        match success.put_be(&mut tmp) {
            Ok(()) => {},
            Err(e) => {
                return Err(e);
            },
        };
        let ghost o1 = tmp@;
        proof {
            assert(success.model() == m.success);
            assert(o1 == o0 + p1);
        }
        match line_builder_json.put_be(&mut tmp) {
            Ok(()) => {},
            Err(e) => {
                return Err(e);
            },
        };
        let ghost o2 = tmp@;
        proof {
            assert(line_builder_json.model() == m.line_builder_json);
            lemma_seq_assoc(o0, p1, e2);
            assert(o2 == o0 + p2);
        }
        out.append(&mut tmp);
        proof {
            assert(Self::enc_model(m) == p2);
            assert(o0 + p2 =~= p2);
            assert(out@ == old(out)@ + Self::enc_model(m));
        }
        Ok(())
    }

    proof fn lemma_dec_enc(m: GuildResultModel, rest: Seq<u8>) {
        let e1 = <bool as NetworkAdapter>::enc_model(m.success);
        let e2 = <RLE<String, u16> as NetworkAdapter>::enc_model(m.line_builder_json);
        let p1 = e1;
        let p2 = p1 + e2;
        assert(Self::enc_model(m) == p2);
        let r2 = rest;
        let r1 = e2 + r2;
        let b = Self::enc_model(m) + rest;
        lemma_seq_assoc(p1, e2, r2);
        assert(p2 + r2 == p1 + r1);
        assert(b == e1 + r1);
        <bool as NetworkAdapter>::lemma_dec_enc(m.success, r1);
        <RLE<String, u16> as NetworkAdapter>::lemma_dec_enc(m.line_builder_json, r2);
        let c1 = b.skip(e1.len() as int);
        lemma_skip_concat(e1, r1);
        assert(c1 == r1);
        assert(Self::enc_model(m).len() == e1.len() + e2.len());
        assert(GuildResultModel { success: m.success, line_builder_json: m.line_builder_json } =~= m);
    }

    proof fn lemma_enc_dec(b: Seq<u8>, m: GuildResultModel, n: int) {
        let (g1, n1) = <bool as NetworkAdapter>::dec(b)->Ok_0;
        <bool as NetworkAdapter>::lemma_enc_dec(b, g1, n1);
        let b1 = b.skip(n1);
        let (g2, n2) = <RLE<String, u16> as NetworkAdapter>::dec(b1)->Ok_0;
        <RLE<String, u16> as NetworkAdapter>::lemma_enc_dec(b1, g2, n2);
        assert(n == n1 + n2);
        assert(m.success == g1);
        assert(m.line_builder_json == g2);
        if Self::canon(b) {
            let s1 = n1;
            let s2 = s1 + n2;
            let q1 = <bool as NetworkAdapter>::enc_model(m.success);
            assert(q1 == b.take(s1));
            lemma_take_concat(b, s1, n2);
            let q2 = q1 + <RLE<String, u16> as NetworkAdapter>::enc_model(m.line_builder_json);
            assert(q2 == b.take(s2));
            assert(Self::enc_model(m) == q2);
            assert(Self::enc_model(m) == b.take(n));
        }
    }
}

#[verifier::ext_equal]
#[derive(Debug, PartialEq, Clone)]
pub struct HatchPet {
    pub pet_name: RLE<String, u16>,
    pub pet_skin: u32,
    pub item_type: u32,
}

/// The mathematical model of a decoded `HatchPet`.
#[verifier::ext_equal]
pub struct HatchPetModel {
    pub pet_name: Seq<char>,
    pub pet_skin: u32,
    pub item_type: u32,
}

impl NetworkAdapter for HatchPet {
    type Model = HatchPetModel;

    open spec fn model(self) -> HatchPetModel {
        HatchPetModel {
            pet_name: self.pet_name.model(),
            pet_skin: self.pet_skin.model(),
            item_type: self.item_type.model(),
        }
    }

    open spec fn enc_model(m: HatchPetModel) -> Seq<u8> {
        <RLE<String, u16> as NetworkAdapter>::enc_model(m.pet_name) + <u32 as NetworkAdapter>::enc_model(m.pet_skin) + <u32 as NetworkAdapter>::enc_model(m.item_type)
    }

    open spec fn valid_model(m: HatchPetModel) -> bool {
        <RLE<String, u16> as NetworkAdapter>::valid_model(m.pet_name) && <u32 as NetworkAdapter>::valid_model(m.pet_skin) && <u32 as NetworkAdapter>::valid_model(m.item_type)
    }

    closed spec fn dec(b: Seq<u8>) -> Result<(HatchPetModel, int), Error> {
        match <RLE<String, u16> as NetworkAdapter>::dec(b) {
            Ok((g1, n1)) => {
                let b1 = b.skip(n1);
                match <u32 as NetworkAdapter>::dec(b1) {
                    Ok((g2, n2)) => {
                        let b2 = b1.skip(n2);
                        match <u32 as NetworkAdapter>::dec(b2) {
                            Ok((g3, n3)) => {
                                Ok((HatchPetModel { pet_name: g1, pet_skin: g2, item_type: g3 }, n1 + n2 + n3))
                            },
                            Err(e) => Err(e),
                        }
                    },
                    Err(e) => Err(e),
                }
            },
            Err(e) => Err(e),
        }
    }

    closed spec fn canon(b: Seq<u8>) -> bool {
        match <RLE<String, u16> as NetworkAdapter>::dec(b) {
            Ok((g1, n1)) => <RLE<String, u16> as NetworkAdapter>::canon(b) && {
                let b1 = b.skip(n1);
                match <u32 as NetworkAdapter>::dec(b1) {
                    Ok((g2, n2)) => <u32 as NetworkAdapter>::canon(b1) && {
                        let b2 = b1.skip(n2);
                        match <u32 as NetworkAdapter>::dec(b2) {
                            Ok((g3, n3)) => <u32 as NetworkAdapter>::canon(b2) && {
                                true
                            },
                            Err(e) => true,
                        }
                    },
                    Err(e) => true,
                }
            },
            Err(e) => true,
        }
    }

    fn get_be(r: &mut Reader) -> (res: Result<HatchPet, Error>) {
        let ghost b = old(r).remaining_bytes();
        let save = r.position();
        let x1 = match <RLE<String, u16> as NetworkAdapter>::get_be(r) {
            Ok(v) => v,
            Err(e) => {
                r.seek(save);
                return Err(e);
            },
        };
        let x2 = match <u32 as NetworkAdapter>::get_be(r) {
            Ok(v) => v,
            Err(e) => {
                r.seek(save);
                return Err(e);
            },
        };
        let x3 = match <u32 as NetworkAdapter>::get_be(r) {
            Ok(v) => v,
            Err(e) => {
                r.seek(save);
                return Err(e);
            },
        };
        proof {
            let (g1, n1) = <RLE<String, u16> as NetworkAdapter>::dec(b)->Ok_0;
            let b1 = b.skip(n1);
            let (g2, n2) = <u32 as NetworkAdapter>::dec(b1)->Ok_0;
            let b2 = b1.skip(n2);
            let (g3, n3) = <u32 as NetworkAdapter>::dec(b2)->Ok_0;
            lemma_skip_skip(b, n1, n2);
            assert(b2 == b.skip(n1 + n2));
            lemma_skip_skip(b, n1 + n2, n3);
            assert(b2.skip(n3) == b.skip(n1 + n2 + n3));
        }
        Ok(HatchPet { pet_name: x1, pet_skin: x2, item_type: x3 })
    }

    fn put_be(self, out: &mut Vec<u8>) -> (res: Result<(), Error>) {
        let ghost m = self.model();
        let HatchPet { pet_name, pet_skin, item_type } = self;
        let ghost e1 = <RLE<String, u16> as NetworkAdapter>::enc_model(m.pet_name);
        let ghost e2 = <u32 as NetworkAdapter>::enc_model(m.pet_skin);
        let ghost e3 = <u32 as NetworkAdapter>::enc_model(m.item_type);
        let ghost p1 = e1;
        let ghost p2 = p1 + e2;
        let ghost p3 = p2 + e3;
        let mut tmp: Vec<u8> = Vec::new();
        let ghost o0 = tmp@;
        match pet_name.put_be(&mut tmp) {
            Ok(()) => {},
            Err(e) => {
                return Err(e);
            },
        };
        let ghost o1 = tmp@;
        proof {
            assert(pet_name.model() == m.pet_name);
            assert(o1 == o0 + p1);
        }
        match pet_skin.put_be(&mut tmp) {
            Ok(()) => {},
            Err(e) => {
                return Err(e);
            },
        };
        let ghost o2 = tmp@;
        proof {
            assert(pet_skin.model() == m.pet_skin);
            lemma_seq_assoc(o0, p1, e2);
            assert(o2 == o0 + p2);
        }
        match item_type.put_be(&mut tmp) {
            Ok(()) => {},
            Err(e) => {
                return Err(e);
            },
        };
        let ghost o3 = tmp@;
        proof {
            assert(item_type.model() == m.item_type);
            lemma_seq_assoc(o0, p2, e3);
            assert(o3 == o0 + p3);
        }
        out.append(&mut tmp);
        proof {
            assert(Self::enc_model(m) == p3);
            assert(o0 + p3 =~= p3);
            assert(out@ == old(out)@ + Self::enc_model(m));
        }
        Ok(())
    }

    proof fn lemma_dec_enc(m: HatchPetModel, rest: Seq<u8>) {
        let e1 = <RLE<String, u16> as NetworkAdapter>::enc_model(m.pet_name);
        let e2 = <u32 as NetworkAdapter>::enc_model(m.pet_skin);
        let e3 = <u32 as NetworkAdapter>::enc_model(m.item_type);
        let p1 = e1;
        let p2 = p1 + e2;
        let p3 = p2 + e3;
        assert(Self::enc_model(m) == p3);
        let r3 = rest;
        let r2 = e3 + r3;
        let r1 = e2 + r2;
        let b = Self::enc_model(m) + rest;
        lemma_seq_assoc(p2, e3, r3);
        assert(p3 + r3 == p2 + r2);
        lemma_seq_assoc(p1, e2, r2);
        assert(p2 + r2 == p1 + r1);
        assert(b == e1 + r1);
        <RLE<String, u16> as NetworkAdapter>::lemma_dec_enc(m.pet_name, r1);
        <u32 as NetworkAdapter>::lemma_dec_enc(m.pet_skin, r2);
        <u32 as NetworkAdapter>::lemma_dec_enc(m.item_type, r3);
        let c1 = b.skip(e1.len() as int);
        lemma_skip_concat(e1, r1);
        assert(c1 == r1);
        let c2 = c1.skip(e2.len() as int);
        lemma_skip_concat(e2, r2);
        assert(c2 == r2);
        assert(Self::enc_model(m).len() == e1.len() + e2.len() + e3.len());
        assert(HatchPetModel { pet_name: m.pet_name, pet_skin: m.pet_skin, item_type: m.item_type } =~= m);
    }

    proof fn lemma_enc_dec(b: Seq<u8>, m: HatchPetModel, n: int) {
        let (g1, n1) = <RLE<String, u16> as NetworkAdapter>::dec(b)->Ok_0;
        <RLE<String, u16> as NetworkAdapter>::lemma_enc_dec(b, g1, n1);
        let b1 = b.skip(n1);
        let (g2, n2) = <u32 as NetworkAdapter>::dec(b1)->Ok_0;
        <u32 as NetworkAdapter>::lemma_enc_dec(b1, g2, n2);
        let b2 = b1.skip(n2);
        let (g3, n3) = <u32 as NetworkAdapter>::dec(b2)->Ok_0;
        <u32 as NetworkAdapter>::lemma_enc_dec(b2, g3, n3);
        lemma_skip_skip(b, n1, n2);
        assert(b2 == b.skip(n1 + n2));
        assert(n == n1 + n2 + n3);
        assert(m.pet_name == g1);
        assert(m.pet_skin == g2);
        assert(m.item_type == g3);
        if Self::canon(b) {
            let s1 = n1;
            let s2 = s1 + n2;
            let s3 = s2 + n3;
            let q1 = <RLE<String, u16> as NetworkAdapter>::enc_model(m.pet_name);
            assert(q1 == b.take(s1));
            lemma_take_concat(b, s1, n2);
            let q2 = q1 + <u32 as NetworkAdapter>::enc_model(m.pet_skin);
            assert(q2 == b.take(s2));
            lemma_take_concat(b, s2, n3);
            let q3 = q2 + <u32 as NetworkAdapter>::enc_model(m.item_type);
            assert(q3 == b.take(s3));
            assert(Self::enc_model(m) == q3);
            assert(Self::enc_model(m) == b.take(n));
        }
    }
}

#[verifier::ext_equal]
#[derive(Debug, PartialEq, Clone)]
pub struct InvResult {
    pub result: u32,
}

impl NetworkAdapter for InvResult {
    type Model = InvResult;

    open spec fn model(self) -> InvResult {
        self
    }

    open spec fn enc_model(m: InvResult) -> Seq<u8> {
        <u32 as NetworkAdapter>::enc_model(m.result)
    }

    open spec fn valid_model(m: InvResult) -> bool {
        <u32 as NetworkAdapter>::valid_model(m.result)
    }

    closed spec fn dec(b: Seq<u8>) -> Result<(InvResult, int), Error> {
        match <u32 as NetworkAdapter>::dec(b) {
            Ok((g1, n1)) => {
                Ok((InvResult { result: g1 }, n1))
            },
            Err(e) => Err(e),
        }
    }

    closed spec fn canon(b: Seq<u8>) -> bool {
        match <u32 as NetworkAdapter>::dec(b) {
            Ok((g1, n1)) => <u32 as NetworkAdapter>::canon(b) && {
                true
            },
            Err(e) => true,
        }
    }

    fn get_be(r: &mut Reader) -> (res: Result<InvResult, Error>) {
        let ghost b = old(r).remaining_bytes();
        let save = r.position();
        let x1 = match <u32 as NetworkAdapter>::get_be(r) {
            Ok(v) => v,
            Err(e) => {
                r.seek(save);
                return Err(e);
            },
        };
        proof {
            let (g1, n1) = <u32 as NetworkAdapter>::dec(b)->Ok_0;
        }
        Ok(InvResult { result: x1 })
    }

    fn put_be(self, out: &mut Vec<u8>) -> (res: Result<(), Error>) {
        let ghost m = self.model();
        let InvResult { result } = self;
        let ghost e1 = <u32 as NetworkAdapter>::enc_model(m.result);
        let ghost p1 = e1;
        let mut tmp: Vec<u8> = Vec::new();
        let ghost o0 = tmp@;
        match result.put_be(&mut tmp) {
            Ok(()) => {},
            Err(e) => {
                return Err(e);
            },
        };
        let ghost o1 = tmp@;
        proof {
            assert(result == m.result);
            assert(o1 == o0 + p1);
        }
        out.append(&mut tmp);
        proof {
            assert(Self::enc_model(m) == p1);
            assert(o0 + p1 =~= p1);
            assert(out@ == old(out)@ + Self::enc_model(m));
        }
        Ok(())
    }

    proof fn lemma_dec_enc(m: InvResult, rest: Seq<u8>) {
        let e1 = <u32 as NetworkAdapter>::enc_model(m.result);
        let p1 = e1;
        assert(Self::enc_model(m) == p1);
        let r1 = rest;
        let b = Self::enc_model(m) + rest;
        assert(b == e1 + r1);
        <u32 as NetworkAdapter>::lemma_dec_enc(m.result, r1);
        assert(Self::enc_model(m).len() == e1.len());
        assert(InvResult { result: m.result } =~= m);
    }

    proof fn lemma_enc_dec(b: Seq<u8>, m: InvResult, n: int) {
        let (g1, n1) = <u32 as NetworkAdapter>::dec(b)->Ok_0;
        <u32 as NetworkAdapter>::lemma_enc_dec(b, g1, n1);
        assert(n == n1);
        assert(m.result == g1);
        if Self::canon(b) {
            let s1 = n1;
            let q1 = <u32 as NetworkAdapter>::enc_model(m.result);
            assert(q1 == b.take(s1));
            assert(Self::enc_model(m) == q1);
            assert(Self::enc_model(m) == b.take(n));
        }
    }
}

#[verifier::ext_equal]
#[derive(Debug, PartialEq, Clone)]
pub struct InvitedToGuild {
    pub name: RLE<String, u16>,
    pub guild_name: RLE<String, u16>,
}

/// The mathematical model of a decoded `InvitedToGuild`.
#[verifier::ext_equal]
pub struct InvitedToGuildModel {
    pub name: Seq<char>,
    pub guild_name: Seq<char>,
}

impl NetworkAdapter for InvitedToGuild {
    type Model = InvitedToGuildModel;

    open spec fn model(self) -> InvitedToGuildModel {
        InvitedToGuildModel {
            name: self.name.model(),
            guild_name: self.guild_name.model(),
        }
    }

    open spec fn enc_model(m: InvitedToGuildModel) -> Seq<u8> {
        <RLE<String, u16> as NetworkAdapter>::enc_model(m.name) + <RLE<String, u16> as NetworkAdapter>::enc_model(m.guild_name)
    }

    open spec fn valid_model(m: InvitedToGuildModel) -> bool {
        <RLE<String, u16> as NetworkAdapter>::valid_model(m.name) && <RLE<String, u16> as NetworkAdapter>::valid_model(m.guild_name)
    }

    closed spec fn dec(b: Seq<u8>) -> Result<(InvitedToGuildModel, int), Error> {
        match <RLE<String, u16> as NetworkAdapter>::dec(b) {
            Ok((g1, n1)) => {
                let b1 = b.skip(n1);
                match <RLE<String, u16> as NetworkAdapter>::dec(b1) {
                    Ok((g2, n2)) => {
                        Ok((InvitedToGuildModel { name: g1, guild_name: g2 }, n1 + n2))
                    },
                    Err(e) => Err(e),
                }
            },
            Err(e) => Err(e),
        }
    }

    closed spec fn canon(b: Seq<u8>) -> bool {
        match <RLE<String, u16> as NetworkAdapter>::dec(b) {
            Ok((g1, n1)) => <RLE<String, u16> as NetworkAdapter>::canon(b) && {
                let b1 = b.skip(n1);
                match <RLE<String, u16> as NetworkAdapter>::dec(b1) {
                    Ok((g2, n2)) => <RLE<String, u16> as NetworkAdapter>::canon(b1) && {
                        true
                    },
                    Err(e) => true,
                }
            },
            Err(e) => true,
        }
    }

    fn get_be(r: &mut Reader) -> (res: Result<InvitedToGuild, Error>) {
        let ghost b = old(r).remaining_bytes();
        let save = r.position();
        let x1 = match <RLE<String, u16> as NetworkAdapter>::get_be(r) {
            Ok(v) => v,
            Err(e) => {
                r.seek(save);
                return Err(e);
            },
        };
        let x2 = match <RLE<String, u16> as NetworkAdapter>::get_be(r) {
            Ok(v) => v,
            Err(e) => {
                r.seek(save);
                return Err(e);
            },
        };
        proof {
            let (g1, n1) = <RLE<String, u16> as NetworkAdapter>::dec(b)->Ok_0;
            let b1 = b.skip(n1);
            let (g2, n2) = <RLE<String, u16> as NetworkAdapter>::dec(b1)->Ok_0;
            lemma_skip_skip(b, n1, n2);
            assert(b1.skip(n2) == b.skip(n1 + n2));
        }
        Ok(InvitedToGuild { name: x1, guild_name: x2 })
    }

    fn put_be(self, out: &mut Vec<u8>) -> (res: Result<(), Error>) {
        let ghost m = self.model();
        let InvitedToGuild { name, guild_name } = self;
        let ghost e1 = <RLE<String, u16> as NetworkAdapter>::enc_model(m.name);
        let ghost e2 = <RLE<String, u16> as NetworkAdapter>::enc_model(m.guild_name);
        let ghost p1 = e1;
        let ghost p2 = p1 + e2;
        let mut tmp: Vec<u8> = Vec::new();
        let ghost o0 = tmp@;
        match name.put_be(&mut tmp) {
            Ok(()) => {},
            Err(e) => {
                return Err(e);
            },
        };
        let ghost o1 = tmp@;
        proof {
            assert(name.model() == m.name);
            assert(o1 == o0 + p1);
        }
        match guild_name.put_be(&mut tmp) {
            Ok(()) => {},
            Err(e) => {
                return Err(e);
            },
        };
        let ghost o2 = tmp@;
        proof {
            assert(guild_name.model() == m.guild_name);
            lemma_seq_assoc(o0, p1, e2);
            assert(o2 == o0 + p2);
        }
        out.append(&mut tmp);
        proof {
            assert(Self::enc_model(m) == p2);
            assert(o0 + p2 =~= p2);
            assert(out@ == old(out)@ + Self::enc_model(m));
        }
        Ok(())
    }

    proof fn lemma_dec_enc(m: InvitedToGuildModel, rest: Seq<u8>) {
        let e1 = <RLE<String, u16> as NetworkAdapter>::enc_model(m.name);
        let e2 = <RLE<String, u16> as NetworkAdapter>::enc_model(m.guild_name);
        let p1 = e1;
        let p2 = p1 + e2;
        assert(Self::enc_model(m) == p2);
        let r2 = rest;
        let r1 = e2 + r2;
        let b = Self::enc_model(m) + rest;
        lemma_seq_assoc(p1, e2, r2);
        assert(p2 + r2 == p1 + r1);
        assert(b == e1 + r1);
        <RLE<String, u16> as NetworkAdapter>::lemma_dec_enc(m.name, r1);
        <RLE<String, u16> as NetworkAdapter>::lemma_dec_enc(m.guild_name, r2);
        let c1 = b.skip(e1.len() as int);
        lemma_skip_concat(e1, r1);
        assert(c1 == r1);
        assert(Self::enc_model(m).len() == e1.len() + e2.len());
        assert(InvitedToGuildModel { name: m.name, guild_name: m.guild_name } =~= m);
    }

    proof fn lemma_enc_dec(b: Seq<u8>, m: InvitedToGuildModel, n: int) {
        let (g1, n1) = <RLE<String, u16> as NetworkAdapter>::dec(b)->Ok_0;
        <RLE<String, u16> as NetworkAdapter>::lemma_enc_dec(b, g1, n1);
        let b1 = b.skip(n1);
        let (g2, n2) = <RLE<String, u16> as NetworkAdapter>::dec(b1)->Ok_0;
        <RLE<String, u16> as NetworkAdapter>::lemma_enc_dec(b1, g2, n2);
        assert(n == n1 + n2);
        assert(m.name == g1);
        assert(m.guild_name == g2);
        if Self::canon(b) {
            let s1 = n1;
            let s2 = s1 + n2;
            let q1 = <RLE<String, u16> as NetworkAdapter>::enc_model(m.name);
            assert(q1 == b.take(s1));
            lemma_take_concat(b, s1, n2);
            let q2 = q1 + <RLE<String, u16> as NetworkAdapter>::enc_model(m.guild_name);
            assert(q2 == b.take(s2));
            assert(Self::enc_model(m) == q2);
            assert(Self::enc_model(m) == b.take(n));
        }
    }
}

#[verifier::ext_equal]
#[derive(Debug, PartialEq, Clone)]
pub struct ImminentArenaWave {
    pub current_runtime: u32,
}

impl NetworkAdapter for ImminentArenaWave {
    type Model = ImminentArenaWave;

    open spec fn model(self) -> ImminentArenaWave {
        self
    }

    open spec fn enc_model(m: ImminentArenaWave) -> Seq<u8> {
        <u32 as NetworkAdapter>::enc_model(m.current_runtime)
    }

    open spec fn valid_model(m: ImminentArenaWave) -> bool {
        <u32 as NetworkAdapter>::valid_model(m.current_runtime)
    }

    closed spec fn dec(b: Seq<u8>) -> Result<(ImminentArenaWave, int), Error> {
        match <u32 as NetworkAdapter>::dec(b) {
            Ok((g1, n1)) => {
                Ok((ImminentArenaWave { current_runtime: g1 }, n1))
            },
            Err(e) => Err(e),
        }
    }

    closed spec fn canon(b: Seq<u8>) -> bool {
        match <u32 as NetworkAdapter>::dec(b) {
            Ok((g1, n1)) => <u32 as NetworkAdapter>::canon(b) && {
                true
            },
            Err(e) => true,
        }
    }

    fn get_be(r: &mut Reader) -> (res: Result<ImminentArenaWave, Error>) {
        let ghost b = old(r).remaining_bytes();
        let save = r.position();
        let x1 = match <u32 as NetworkAdapter>::get_be(r) {
            Ok(v) => v,
            Err(e) => {
                r.seek(save);
                return Err(e);
            },
        };
        proof {
            let (g1, n1) = <u32 as NetworkAdapter>::dec(b)->Ok_0;
        }
        Ok(ImminentArenaWave { current_runtime: x1 })
    }

    fn put_be(self, out: &mut Vec<u8>) -> (res: Result<(), Error>) {
        let ghost m = self.model();
        let ImminentArenaWave { current_runtime } = self;
        let ghost e1 = <u32 as NetworkAdapter>::enc_model(m.current_runtime);
        let ghost p1 = e1;
        let mut tmp: Vec<u8> = Vec::new();
        let ghost o0 = tmp@;
        match current_runtime.put_be(&mut tmp) {
            Ok(()) => {},
            Err(e) => {
                return Err(e);
            },
        };
        let ghost o1 = tmp@;
        proof {
            assert(current_runtime == m.current_runtime);
            assert(o1 == o0 + p1);
        }
        out.append(&mut tmp);
        proof {
            assert(Self::enc_model(m) == p1);
            assert(o0 + p1 =~= p1);
            assert(out@ == old(out)@ + Self::enc_model(m));
        }
        Ok(())
    }

    proof fn lemma_dec_enc(m: ImminentArenaWave, rest: Seq<u8>) {
        let e1 = <u32 as NetworkAdapter>::enc_model(m.current_runtime);
        let p1 = e1;
        assert(Self::enc_model(m) == p1);
        let r1 = rest;
        let b = Self::enc_model(m) + rest;
        assert(b == e1 + r1);
        <u32 as NetworkAdapter>::lemma_dec_enc(m.current_runtime, r1);
        assert(Self::enc_model(m).len() == e1.len());
        assert(ImminentArenaWave { current_runtime: m.current_runtime } =~= m);
    }

    proof fn lemma_enc_dec(b: Seq<u8>, m: ImminentArenaWave, n: int) {
        let (g1, n1) = <u32 as NetworkAdapter>::dec(b)->Ok_0;
        <u32 as NetworkAdapter>::lemma_enc_dec(b, g1, n1);
        assert(n == n1);
        assert(m.current_runtime == g1);
        if Self::canon(b) {
            let s1 = n1;
            let q1 = <u32 as NetworkAdapter>::enc_model(m.current_runtime);
            assert(q1 == b.take(s1));
            assert(Self::enc_model(m) == q1);
            assert(Self::enc_model(m) == b.take(n));
        }
    }
}

#[verifier::ext_equal]
#[derive(Debug, PartialEq, Clone)]
pub struct KeyInfoResponse {
    pub name: RLE<String, u16>,
    pub description: RLE<String, u16>,
    pub creator: RLE<String, u16>,
}

/// The mathematical model of a decoded `KeyInfoResponse`.
#[verifier::ext_equal]
pub struct KeyInfoResponseModel {
    pub name: Seq<char>,
    pub description: Seq<char>,
    pub creator: Seq<char>,
}

impl NetworkAdapter for KeyInfoResponse {
    type Model = KeyInfoResponseModel;

    open spec fn model(self) -> KeyInfoResponseModel {
        KeyInfoResponseModel {
            name: self.name.model(),
            description: self.description.model(),
            creator: self.creator.model(),
        }
    }

    open spec fn enc_model(m: KeyInfoResponseModel) -> Seq<u8> {
        <RLE<String, u16> as NetworkAdapter>::enc_model(m.name) + <RLE<String, u16> as NetworkAdapter>::enc_model(m.description) + <RLE<String, u16> as NetworkAdapter>::enc_model(m.creator)
    }

    open spec fn valid_model(m: KeyInfoResponseModel) -> bool {
        <RLE<String, u16> as NetworkAdapter>::valid_model(m.name) && <RLE<String, u16> as NetworkAdapter>::valid_model(m.description) && <RLE<String, u16> as NetworkAdapter>::valid_model(m.creator)
    }

    closed spec fn dec(b: Seq<u8>) -> Result<(KeyInfoResponseModel, int), Error> {
        match <RLE<String, u16> as NetworkAdapter>::dec(b) {
            Ok((g1, n1)) => {
                let b1 = b.skip(n1);
                match <RLE<String, u16> as NetworkAdapter>::dec(b1) {
                    Ok((g2, n2)) => {
                        let b2 = b1.skip(n2);
                        match <RLE<String, u16> as NetworkAdapter>::dec(b2) {
                            Ok((g3, n3)) => {
                                Ok((KeyInfoResponseModel { name: g1, description: g2, creator: g3 }, n1 + n2 + n3))
                            },
                            Err(e) => Err(e),
                        }
                    },
                    Err(e) => Err(e),
                }
            },
            Err(e) => Err(e),
        }
    }

    closed spec fn canon(b: Seq<u8>) -> bool {
        match <RLE<String, u16> as NetworkAdapter>::dec(b) {
            Ok((g1, n1)) => <RLE<String, u16> as NetworkAdapter>::canon(b) && {
                let b1 = b.skip(n1);
                match <RLE<String, u16> as NetworkAdapter>::dec(b1) {
                    Ok((g2, n2)) => <RLE<String, u16> as NetworkAdapter>::canon(b1) && {
                        let b2 = b1.skip(n2);
                        match <RLE<String, u16> as NetworkAdapter>::dec(b2) {
                            Ok((g3, n3)) => <RLE<String, u16> as NetworkAdapter>::canon(b2) && {
                                true
                            },
                            Err(e) => true,
                        }
                    },
                    Err(e) => true,
                }
            },
            Err(e) => true,
        }
    }

    fn get_be(r: &mut Reader) -> (res: Result<KeyInfoResponse, Error>) {
        let ghost b = old(r).remaining_bytes();
        let save = r.position();
        let x1 = match <RLE<String, u16> as NetworkAdapter>::get_be(r) {
            Ok(v) => v,
            Err(e) => {
                r.seek(save);
                return Err(e);
            },
        };
        let x2 = match <RLE<String, u16> as NetworkAdapter>::get_be(r) {
            Ok(v) => v,
            Err(e) => {
                r.seek(save);
                return Err(e);
            },
        };
        let x3 = match <RLE<String, u16> as NetworkAdapter>::get_be(r) {
            Ok(v) => v,
            Err(e) => {
                r.seek(save);
                return Err(e);
            },
        };
        proof {
            let (g1, n1) = <RLE<String, u16> as NetworkAdapter>::dec(b)->Ok_0;
            let b1 = b.skip(n1);
            let (g2, n2) = <RLE<String, u16> as NetworkAdapter>::dec(b1)->Ok_0;
            let b2 = b1.skip(n2);
            let (g3, n3) = <RLE<String, u16> as NetworkAdapter>::dec(b2)->Ok_0;
            lemma_skip_skip(b, n1, n2);
            assert(b2 == b.skip(n1 + n2));
            lemma_skip_skip(b, n1 + n2, n3);
            assert(b2.skip(n3) == b.skip(n1 + n2 + n3));
        }
        Ok(KeyInfoResponse { name: x1, description: x2, creator: x3 })
    }

    fn put_be(self, out: &mut Vec<u8>) -> (res: Result<(), Error>) {
        let ghost m = self.model();
        let KeyInfoResponse { name, description, creator } = self;
        let ghost e1 = <RLE<String, u16> as NetworkAdapter>::enc_model(m.name);
        let ghost e2 = <RLE<String, u16> as NetworkAdapter>::enc_model(m.description);
        let ghost e3 = <RLE<String, u16> as NetworkAdapter>::enc_model(m.creator);
        let ghost p1 = e1;
        let ghost p2 = p1 + e2;
        let ghost p3 = p2 + e3;
        let mut tmp: Vec<u8> = Vec::new();
        let ghost o0 = tmp@;
        match name.put_be(&mut tmp) {
            Ok(()) => {},
            Err(e) => {
                return Err(e);
            },
        };
        let ghost o1 = tmp@;
        proof {
            assert(name.model() == m.name);
            assert(o1 == o0 + p1);
        }
        match description.put_be(&mut tmp) {
            Ok(()) => {},
            Err(e) => {
                return Err(e);
            },
        };
        let ghost o2 = tmp@;
        proof {
            assert(description.model() == m.description);
            lemma_seq_assoc(o0, p1, e2);
            assert(o2 == o0 + p2);
        }
        match creator.put_be(&mut tmp) {
            Ok(()) => {},
            Err(e) => {
                return Err(e);
            },
        };
        let ghost o3 = tmp@;
        proof {
            assert(creator.model() == m.creator);
            lemma_seq_assoc(o0, p2, e3);
            assert(o3 == o0 + p3);
        }
        out.append(&mut tmp);
        proof {
            assert(Self::enc_model(m) == p3);
            assert(o0 + p3 =~= p3);
            assert(out@ == old(out)@ + Self::enc_model(m));
        }
        Ok(())
    }

    proof fn lemma_dec_enc(m: KeyInfoResponseModel, rest: Seq<u8>) {
        let e1 = <RLE<String, u16> as NetworkAdapter>::enc_model(m.name);
        let e2 = <RLE<String, u16> as NetworkAdapter>::enc_model(m.description);
        let e3 = <RLE<String, u16> as NetworkAdapter>::enc_model(m.creator);
        let p1 = e1;
        let p2 = p1 + e2;
        let p3 = p2 + e3;
        assert(Self::enc_model(m) == p3);
        let r3 = rest;
        let r2 = e3 + r3;
        let r1 = e2 + r2;
        let b = Self::enc_model(m) + rest;
        lemma_seq_assoc(p2, e3, r3);
        assert(p3 + r3 == p2 + r2);
        lemma_seq_assoc(p1, e2, r2);
        assert(p2 + r2 == p1 + r1);
        assert(b == e1 + r1);
        <RLE<String, u16> as NetworkAdapter>::lemma_dec_enc(m.name, r1);
        <RLE<String, u16> as NetworkAdapter>::lemma_dec_enc(m.description, r2);
        <RLE<String, u16> as NetworkAdapter>::lemma_dec_enc(m.creator, r3);
        let c1 = b.skip(e1.len() as int);
        lemma_skip_concat(e1, r1);
        assert(c1 == r1);
        let c2 = c1.skip(e2.len() as int);
        lemma_skip_concat(e2, r2);
        assert(c2 == r2);
        assert(Self::enc_model(m).len() == e1.len() + e2.len() + e3.len());
        assert(KeyInfoResponseModel { name: m.name, description: m.description, creator: m.creator } =~= m);
    }

    proof fn lemma_enc_dec(b: Seq<u8>, m: KeyInfoResponseModel, n: int) {
        let (g1, n1) = <RLE<String, u16> as NetworkAdapter>::dec(b)->Ok_0;
        <RLE<String, u16> as NetworkAdapter>::lemma_enc_dec(b, g1, n1);
        let b1 = b.skip(n1);
        let (g2, n2) = <RLE<String, u16> as NetworkAdapter>::dec(b1)->Ok_0;
        <RLE<String, u16> as NetworkAdapter>::lemma_enc_dec(b1, g2, n2);
        let b2 = b1.skip(n2);
        let (g3, n3) = <RLE<String, u16> as NetworkAdapter>::dec(b2)->Ok_0;
        <RLE<String, u16> as NetworkAdapter>::lemma_enc_dec(b2, g3, n3);
        lemma_skip_skip(b, n1, n2);
        assert(b2 == b.skip(n1 + n2));
        assert(n == n1 + n2 + n3);
        assert(m.name == g1);
        assert(m.description == g2);
        assert(m.creator == g3);
        if Self::canon(b) {
            let s1 = n1;
            let s2 = s1 + n2;
            let s3 = s2 + n3;
            let q1 = <RLE<String, u16> as NetworkAdapter>::enc_model(m.name);
            assert(q1 == b.take(s1));
            lemma_take_concat(b, s1, n2);
            let q2 = q1 + <RLE<String, u16> as NetworkAdapter>::enc_model(m.description);
            assert(q2 == b.take(s2));
            lemma_take_concat(b, s2, n3);
            let q3 = q2 + <RLE<String, u16> as NetworkAdapter>::enc_model(m.creator);
            assert(q3 == b.take(s3));
            assert(Self::enc_model(m) == q3);
            assert(Self::enc_model(m) == b.take(n));
        }
    }
}

#[verifier::ext_equal]
#[derive(Debug, PartialEq, Clone)]
pub struct LoginRewardMsg {
    pub item_id: u32,
    pub quantity: u32,
    pub gold: u32,
}

impl NetworkAdapter for LoginRewardMsg {
    type Model = LoginRewardMsg;

    open spec fn model(self) -> LoginRewardMsg {
        self
    }

    open spec fn enc_model(m: LoginRewardMsg) -> Seq<u8> {
        <u32 as NetworkAdapter>::enc_model(m.item_id) + <u32 as NetworkAdapter>::enc_model(m.quantity) + <u32 as NetworkAdapter>::enc_model(m.gold)
    }

    open spec fn valid_model(m: LoginRewardMsg) -> bool {
        <u32 as NetworkAdapter>::valid_model(m.item_id) && <u32 as NetworkAdapter>::valid_model(m.quantity) && <u32 as NetworkAdapter>::valid_model(m.gold)
    }

    closed spec fn dec(b: Seq<u8>) -> Result<(LoginRewardMsg, int), Error> {
        match <u32 as NetworkAdapter>::dec(b) {
            Ok((g1, n1)) => {
                let b1 = b.skip(n1);
                match <u32 as NetworkAdapter>::dec(b1) {
                    Ok((g2, n2)) => {
                        let b2 = b1.skip(n2);
                        match <u32 as NetworkAdapter>::dec(b2) {
                            Ok((g3, n3)) => {
                                Ok((LoginRewardMsg { item_id: g1, quantity: g2, gold: g3 }, n1 + n2 + n3))
                            },
                            Err(e) => Err(e),
                        }
                    },
                    Err(e) => Err(e),
                }
            },
            Err(e) => Err(e),
        }
    }

    closed spec fn canon(b: Seq<u8>) -> bool {
        match <u32 as NetworkAdapter>::dec(b) {
            Ok((g1, n1)) => <u32 as NetworkAdapter>::canon(b) && {
                let b1 = b.skip(n1);
                match <u32 as NetworkAdapter>::dec(b1) {
                    Ok((g2, n2)) => <u32 as NetworkAdapter>::canon(b1) && {
                        let b2 = b1.skip(n2);
                        match <u32 as NetworkAdapter>::dec(b2) {
                            Ok((g3, n3)) => <u32 as NetworkAdapter>::canon(b2) && {
                                true
                            },
                            Err(e) => true,
                        }
                    },
                    Err(e) => true,
                }
            },
            Err(e) => true,
        }
    }

    fn get_be(r: &mut Reader) -> (res: Result<LoginRewardMsg, Error>) {
        let ghost b = old(r).remaining_bytes();
        let save = r.position();
        let x1 = match <u32 as NetworkAdapter>::get_be(r) {
            Ok(v) => v,
            Err(e) => {
                r.seek(save);
                return Err(e);
            },
        };
        let x2 = match <u32 as NetworkAdapter>::get_be(r) {
            Ok(v) => v,
            Err(e) => {
                r.seek(save);
                return Err(e);
            },
        };
        let x3 = match <u32 as NetworkAdapter>::get_be(r) {
            Ok(v) => v,
            Err(e) => {
                r.seek(save);
                return Err(e);
            },
        };
        proof {
            let (g1, n1) = <u32 as NetworkAdapter>::dec(b)->Ok_0;
            let b1 = b.skip(n1);
            let (g2, n2) = <u32 as NetworkAdapter>::dec(b1)->Ok_0;
            let b2 = b1.skip(n2);
            let (g3, n3) = <u32 as NetworkAdapter>::dec(b2)->Ok_0;
            lemma_skip_skip(b, n1, n2);
            assert(b2 == b.skip(n1 + n2));
            lemma_skip_skip(b, n1 + n2, n3);
            assert(b2.skip(n3) == b.skip(n1 + n2 + n3));
        }
        Ok(LoginRewardMsg { item_id: x1, quantity: x2, gold: x3 })
    }

    fn put_be(self, out: &mut Vec<u8>) -> (res: Result<(), Error>) {
        let ghost m = self.model();
        let LoginRewardMsg { item_id, quantity, gold } = self;
        let ghost e1 = <u32 as NetworkAdapter>::enc_model(m.item_id);
        let ghost e2 = <u32 as NetworkAdapter>::enc_model(m.quantity);
        let ghost e3 = <u32 as NetworkAdapter>::enc_model(m.gold);
        let ghost p1 = e1;
        let ghost p2 = p1 + e2;
        let ghost p3 = p2 + e3;
        let mut tmp: Vec<u8> = Vec::new();
        let ghost o0 = tmp@;
        match item_id.put_be(&mut tmp) {
            Ok(()) => {},
            Err(e) => {
                return Err(e);
            },
        };
        let ghost o1 = tmp@;
        proof {
            assert(item_id == m.item_id);
            assert(o1 == o0 + p1);
        }
        match quantity.put_be(&mut tmp) {
            Ok(()) => {},
            Err(e) => {
                return Err(e);
            },
        };
        let ghost o2 = tmp@;
        proof {
            assert(quantity == m.quantity);
            lemma_seq_assoc(o0, p1, e2);
            assert(o2 == o0 + p2);
        }
        match gold.put_be(&mut tmp) {
            Ok(()) => {},
            Err(e) => {
                return Err(e);
            },
        };
        let ghost o3 = tmp@;
        proof {
            assert(gold == m.gold);
            lemma_seq_assoc(o0, p2, e3);
            assert(o3 == o0 + p3);
        }
        out.append(&mut tmp);
        proof {
            assert(Self::enc_model(m) == p3);
            assert(o0 + p3 =~= p3);
            assert(out@ == old(out)@ + Self::enc_model(m));
        }
        Ok(())
    }

    proof fn lemma_dec_enc(m: LoginRewardMsg, rest: Seq<u8>) {
        let e1 = <u32 as NetworkAdapter>::enc_model(m.item_id);
        let e2 = <u32 as NetworkAdapter>::enc_model(m.quantity);
        let e3 = <u32 as NetworkAdapter>::enc_model(m.gold);
        let p1 = e1;
        let p2 = p1 + e2;
        let p3 = p2 + e3;
        assert(Self::enc_model(m) == p3);
        let r3 = rest;
        let r2 = e3 + r3;
        let r1 = e2 + r2;
        let b = Self::enc_model(m) + rest;
        lemma_seq_assoc(p2, e3, r3);
        assert(p3 + r3 == p2 + r2);
        lemma_seq_assoc(p1, e2, r2);
        assert(p2 + r2 == p1 + r1);
        assert(b == e1 + r1);
        <u32 as NetworkAdapter>::lemma_dec_enc(m.item_id, r1);
        <u32 as NetworkAdapter>::lemma_dec_enc(m.quantity, r2);
        <u32 as NetworkAdapter>::lemma_dec_enc(m.gold, r3);
        let c1 = b.skip(e1.len() as int);
        lemma_skip_concat(e1, r1);
        assert(c1 == r1);
        let c2 = c1.skip(e2.len() as int);
        lemma_skip_concat(e2, r2);
        assert(c2 == r2);
        assert(Self::enc_model(m).len() == e1.len() + e2.len() + e3.len());
        assert(LoginRewardMsg { item_id: m.item_id, quantity: m.quantity, gold: m.gold } =~= m);
    }

    proof fn lemma_enc_dec(b: Seq<u8>, m: LoginRewardMsg, n: int) {
        let (g1, n1) = <u32 as NetworkAdapter>::dec(b)->Ok_0;
        <u32 as NetworkAdapter>::lemma_enc_dec(b, g1, n1);
        let b1 = b.skip(n1);
        let (g2, n2) = <u32 as NetworkAdapter>::dec(b1)->Ok_0;
        <u32 as NetworkAdapter>::lemma_enc_dec(b1, g2, n2);
        let b2 = b1.skip(n2);
        let (g3, n3) = <u32 as NetworkAdapter>::dec(b2)->Ok_0;
        <u32 as NetworkAdapter>::lemma_enc_dec(b2, g3, n3);
        lemma_skip_skip(b, n1, n2);
        assert(b2 == b.skip(n1 + n2));
        assert(n == n1 + n2 + n3);
        assert(m.item_id == g1);
        assert(m.quantity == g2);
        assert(m.gold == g3);
        if Self::canon(b) {
            let s1 = n1;
            let s2 = s1 + n2;
            let s3 = s2 + n3;
            let q1 = <u32 as NetworkAdapter>::enc_model(m.item_id);
            assert(q1 == b.take(s1));
            lemma_take_concat(b, s1, n2);
            let q2 = q1 + <u32 as NetworkAdapter>::enc_model(m.quantity);
            assert(q2 == b.take(s2));
            lemma_take_concat(b, s2, n3);
            let q3 = q2 + <u32 as NetworkAdapter>::enc_model(m.gold);
            assert(q3 == b.take(s3));
            assert(Self::enc_model(m) == q3);
            assert(Self::enc_model(m) == b.take(n));
        }
    }
}

#[verifier::ext_equal]
#[derive(Debug, PartialEq, Clone)]
pub struct MapInfo {
    pub width: u32,
    pub height: u32,
    pub name: RLE<String, u16>,
    pub display_name: RLE<String, u16>,
    pub fp: u32,
    pub background: u32,
    pub difficulty: u32,
    pub allow_player_teleport: bool,
    pub show_displays: bool,
    pub client_xml: RLE<Vec<RLE<String, u32>>, u16>,
    pub extra_xml: RLE<Vec<RLE<String, u32>>, u16>,
}

/// The mathematical model of a decoded `MapInfo`.
#[verifier::ext_equal]
pub struct MapInfoModel {
    pub width: u32,
    pub height: u32,
    pub name: Seq<char>,
    pub display_name: Seq<char>,
    pub fp: u32,
    pub background: u32,
    pub difficulty: u32,
    pub allow_player_teleport: bool,
    pub show_displays: bool,
    pub client_xml: Seq<Seq<char>>,
    pub extra_xml: Seq<Seq<char>>,
}

impl NetworkAdapter for MapInfo {
    type Model = MapInfoModel;

    open spec fn model(self) -> MapInfoModel {
        MapInfoModel {
            width: self.width.model(),
            height: self.height.model(),
            name: self.name.model(),
            display_name: self.display_name.model(),
            fp: self.fp.model(),
            background: self.background.model(),
            difficulty: self.difficulty.model(),
            allow_player_teleport: self.allow_player_teleport.model(),
            show_displays: self.show_displays.model(),
            client_xml: self.client_xml.model(),
            extra_xml: self.extra_xml.model(),
        }
    }

    open spec fn enc_model(m: MapInfoModel) -> Seq<u8> {
        <u32 as NetworkAdapter>::enc_model(m.width) + <u32 as NetworkAdapter>::enc_model(m.height) + <RLE<String, u16> as NetworkAdapter>::enc_model(m.name) + <RLE<String, u16> as NetworkAdapter>::enc_model(m.display_name) + <u32 as NetworkAdapter>::enc_model(m.fp) + <u32 as NetworkAdapter>::enc_model(m.background) + <u32 as NetworkAdapter>::enc_model(m.difficulty) + <bool as NetworkAdapter>::enc_model(m.allow_player_teleport) + <bool as NetworkAdapter>::enc_model(m.show_displays) + <RLE<Vec<RLE<String, u32>>, u16> as NetworkAdapter>::enc_model(m.client_xml) + <RLE<Vec<RLE<String, u32>>, u16> as NetworkAdapter>::enc_model(m.extra_xml)
    }

    open spec fn valid_model(m: MapInfoModel) -> bool {
        <u32 as NetworkAdapter>::valid_model(m.width) && <u32 as NetworkAdapter>::valid_model(m.height) && <RLE<String, u16> as NetworkAdapter>::valid_model(m.name) && <RLE<String, u16> as NetworkAdapter>::valid_model(m.display_name) && <u32 as NetworkAdapter>::valid_model(m.fp) && <u32 as NetworkAdapter>::valid_model(m.background) && <u32 as NetworkAdapter>::valid_model(m.difficulty) && <bool as NetworkAdapter>::valid_model(m.allow_player_teleport) && <bool as NetworkAdapter>::valid_model(m.show_displays) && <RLE<Vec<RLE<String, u32>>, u16> as NetworkAdapter>::valid_model(m.client_xml) && <RLE<Vec<RLE<String, u32>>, u16> as NetworkAdapter>::valid_model(m.extra_xml)
    }

    closed spec fn dec(b: Seq<u8>) -> Result<(MapInfoModel, int), Error> {
        match <u32 as NetworkAdapter>::dec(b) {
            Ok((g1, n1)) => {
                let b1 = b.skip(n1);
                match <u32 as NetworkAdapter>::dec(b1) {
                    Ok((g2, n2)) => {
                        let b2 = b1.skip(n2);
                        match <RLE<String, u16> as NetworkAdapter>::dec(b2) {
                            Ok((g3, n3)) => {
                                let b3 = b2.skip(n3);
                                match <RLE<String, u16> as NetworkAdapter>::dec(b3) {
                                    Ok((g4, n4)) => {
                                        let b4 = b3.skip(n4);
                                        match <u32 as NetworkAdapter>::dec(b4) {
                                            Ok((g5, n5)) => {
                                                let b5 = b4.skip(n5);
                                                match <u32 as NetworkAdapter>::dec(b5) {
                                                    Ok((g6, n6)) => {
                                                        let b6 = b5.skip(n6);
                                                        match <u32 as NetworkAdapter>::dec(b6) {
                                                            Ok((g7, n7)) => {
                                                                let b7 = b6.skip(n7);
                                                                match <bool as NetworkAdapter>::dec(b7) {
                                                                    Ok((g8, n8)) => {
                                                                        let b8 = b7.skip(n8);
                                                                        match <bool as NetworkAdapter>::dec(b8) {
                                                                            Ok((g9, n9)) => {
                                                                                let b9 = b8.skip(n9);
                                                                                match <RLE<Vec<RLE<String, u32>>, u16> as NetworkAdapter>::dec(b9) {
                                                                                    Ok((g10, n10)) => {
                                                                                        let b10 = b9.skip(n10);
                                                                                        match <RLE<Vec<RLE<String, u32>>, u16> as NetworkAdapter>::dec(b10) {
                                                                                            Ok((g11, n11)) => {
                                                                                                Ok((MapInfoModel { width: g1, height: g2, name: g3, display_name: g4, fp: g5, background: g6, difficulty: g7, allow_player_teleport: g8, show_displays: g9, client_xml: g10, extra_xml: g11 }, n1 + n2 + n3 + n4 + n5 + n6 + n7 + n8 + n9 + n10 + n11))
                                                                                            },
                                                                                            Err(e) => Err(e),
                                                                                        }
                                                                                    },
                                                                                    Err(e) => Err(e),
                                                                                }
                                                                            },
                                                                            Err(e) => Err(e),
                                                                        }
                                                                    },
                                                                    Err(e) => Err(e),
                                                                }
                                                            },
                                                            Err(e) => Err(e),
                                                        }
                                                    },
                                                    Err(e) => Err(e),
                                                }
                                            },
                                            Err(e) => Err(e),
                                        }
                                    },
                                    Err(e) => Err(e),
                                }
                            },
                            Err(e) => Err(e),
                        }
                    },
                    Err(e) => Err(e),
                }
            },
            Err(e) => Err(e),
        }
    }

    closed spec fn canon(b: Seq<u8>) -> bool {
        match <u32 as NetworkAdapter>::dec(b) {
            Ok((g1, n1)) => <u32 as NetworkAdapter>::canon(b) && {
                let b1 = b.skip(n1);
                match <u32 as NetworkAdapter>::dec(b1) {
                    Ok((g2, n2)) => <u32 as NetworkAdapter>::canon(b1) && {
                        let b2 = b1.skip(n2);
                        match <RLE<String, u16> as NetworkAdapter>::dec(b2) {
                            Ok((g3, n3)) => <RLE<String, u16> as NetworkAdapter>::canon(b2) && {
                                let b3 = b2.skip(n3);
                                match <RLE<String, u16> as NetworkAdapter>::dec(b3) {
                                    Ok((g4, n4)) => <RLE<String, u16> as NetworkAdapter>::canon(b3) && {
                                        let b4 = b3.skip(n4);
                                        match <u32 as NetworkAdapter>::dec(b4) {
                                            Ok((g5, n5)) => <u32 as NetworkAdapter>::canon(b4) && {
                                                let b5 = b4.skip(n5);
                                                match <u32 as NetworkAdapter>::dec(b5) {
                                                    Ok((g6, n6)) => <u32 as NetworkAdapter>::canon(b5) && {
                                                        let b6 = b5.skip(n6);
                                                        match <u32 as NetworkAdapter>::dec(b6) {
                                                            Ok((g7, n7)) => <u32 as NetworkAdapter>::canon(b6) && {
                                                                let b7 = b6.skip(n7);
                                                                match <bool as NetworkAdapter>::dec(b7) {
                                                                    Ok((g8, n8)) => <bool as NetworkAdapter>::canon(b7) && {
                                                                        let b8 = b7.skip(n8);
                                                                        match <bool as NetworkAdapter>::dec(b8) {
                                                                            Ok((g9, n9)) => <bool as NetworkAdapter>::canon(b8) && {
                                                                                let b9 = b8.skip(n9);
                                                                                match <RLE<Vec<RLE<String, u32>>, u16> as NetworkAdapter>::dec(b9) {
                                                                                    Ok((g10, n10)) => <RLE<Vec<RLE<String, u32>>, u16> as NetworkAdapter>::canon(b9) && {
                                                                                        let b10 = b9.skip(n10);
                                                                                        match <RLE<Vec<RLE<String, u32>>, u16> as NetworkAdapter>::dec(b10) {
                                                                                            Ok((g11, n11)) => <RLE<Vec<RLE<String, u32>>, u16> as NetworkAdapter>::canon(b10) && {
                                                                                                true
                                                                                            },
                                                                                            Err(e) => true,
                                                                                        }
                                                                                    },
                                                                                    Err(e) => true,
                                                                                }
                                                                            },
                                                                            Err(e) => true,
                                                                        }
                                                                    },
                                                                    Err(e) => true,
                                                                }
                                                            },
                                                            Err(e) => true,
                                                        }
                                                    },
                                                    Err(e) => true,
                                                }
                                            },
                                            Err(e) => true,
                                        }
                                    },
                                    Err(e) => true,
                                }
                            },
                            Err(e) => true,
                        }
                    },
                    Err(e) => true,
                }
            },
            Err(e) => true,
        }
    }

    #[verifier::rlimit(100)]
    #[verifier::spinoff_prover]
    fn get_be(r: &mut Reader) -> (res: Result<MapInfo, Error>) {
        let ghost b = old(r).remaining_bytes();
        let save = r.position();
        let x1 = match <u32 as NetworkAdapter>::get_be(r) {
            Ok(v) => v,
            Err(e) => {
                r.seek(save);
                return Err(e);
            },
        };
        let x2 = match <u32 as NetworkAdapter>::get_be(r) {
            Ok(v) => v,
            Err(e) => {
                r.seek(save);
                return Err(e);
            },
        };
        let x3 = match <RLE<String, u16> as NetworkAdapter>::get_be(r) {
            Ok(v) => v,
            Err(e) => {
                r.seek(save);
                return Err(e);
            },
        };
        let x4 = match <RLE<String, u16> as NetworkAdapter>::get_be(r) {
            Ok(v) => v,
            Err(e) => {
                r.seek(save);
                return Err(e);
            },
        };
        let x5 = match <u32 as NetworkAdapter>::get_be(r) {
            Ok(v) => v,
            Err(e) => {
                r.seek(save);
                return Err(e);
            },
        };
        let x6 = match <u32 as NetworkAdapter>::get_be(r) {
            Ok(v) => v,
            Err(e) => {
                r.seek(save);
                return Err(e);
            },
        };
        let x7 = match <u32 as NetworkAdapter>::get_be(r) {
            Ok(v) => v,
            Err(e) => {
                r.seek(save);
                return Err(e);
            },
        };
        let x8 = match <bool as NetworkAdapter>::get_be(r) {
            Ok(v) => v,
            Err(e) => {
                r.seek(save);
                return Err(e);
            },
        };
        let x9 = match <bool as NetworkAdapter>::get_be(r) {
            Ok(v) => v,
            Err(e) => {
                r.seek(save);
                return Err(e);
            },
        };
        let x10 = match <RLE<Vec<RLE<String, u32>>, u16> as NetworkAdapter>::get_be(r) {
            Ok(v) => v,
            Err(e) => {
                r.seek(save);
                return Err(e);
            },
        };
        let x11 = match <RLE<Vec<RLE<String, u32>>, u16> as NetworkAdapter>::get_be(r) {
            Ok(v) => v,
            Err(e) => {
                r.seek(save);
                return Err(e);
            },
        };
        proof {
            let (g1, n1) = <u32 as NetworkAdapter>::dec(b)->Ok_0;
            let b1 = b.skip(n1);
            let (g2, n2) = <u32 as NetworkAdapter>::dec(b1)->Ok_0;
            let b2 = b1.skip(n2);
            let (g3, n3) = <RLE<String, u16> as NetworkAdapter>::dec(b2)->Ok_0;
            let b3 = b2.skip(n3);
            let (g4, n4) = <RLE<String, u16> as NetworkAdapter>::dec(b3)->Ok_0;
            let b4 = b3.skip(n4);
            let (g5, n5) = <u32 as NetworkAdapter>::dec(b4)->Ok_0;
            let b5 = b4.skip(n5);
            let (g6, n6) = <u32 as NetworkAdapter>::dec(b5)->Ok_0;
            let b6 = b5.skip(n6);
            let (g7, n7) = <u32 as NetworkAdapter>::dec(b6)->Ok_0;
            let b7 = b6.skip(n7);
            let (g8, n8) = <bool as NetworkAdapter>::dec(b7)->Ok_0;
            let b8 = b7.skip(n8);
            let (g9, n9) = <bool as NetworkAdapter>::dec(b8)->Ok_0;
            let b9 = b8.skip(n9);
            let (g10, n10) = <RLE<Vec<RLE<String, u32>>, u16> as NetworkAdapter>::dec(b9)->Ok_0;
            let b10 = b9.skip(n10);
            let (g11, n11) = <RLE<Vec<RLE<String, u32>>, u16> as NetworkAdapter>::dec(b10)->Ok_0;
            lemma_skip_skip(b, n1, n2);
            assert(b2 == b.skip(n1 + n2));
            lemma_skip_skip(b, n1 + n2, n3);
            assert(b3 == b.skip(n1 + n2 + n3));
            lemma_skip_skip(b, n1 + n2 + n3, n4);
            assert(b4 == b.skip(n1 + n2 + n3 + n4));
            lemma_skip_skip(b, n1 + n2 + n3 + n4, n5);
            assert(b5 == b.skip(n1 + n2 + n3 + n4 + n5));
            lemma_skip_skip(b, n1 + n2 + n3 + n4 + n5, n6);
            assert(b6 == b.skip(n1 + n2 + n3 + n4 + n5 + n6));
            lemma_skip_skip(b, n1 + n2 + n3 + n4 + n5 + n6, n7);
            assert(b7 == b.skip(n1 + n2 + n3 + n4 + n5 + n6 + n7));
            lemma_skip_skip(b, n1 + n2 + n3 + n4 + n5 + n6 + n7, n8);
            assert(b8 == b.skip(n1 + n2 + n3 + n4 + n5 + n6 + n7 + n8));
            lemma_skip_skip(b, n1 + n2 + n3 + n4 + n5 + n6 + n7 + n8, n9);
            assert(b9 == b.skip(n1 + n2 + n3 + n4 + n5 + n6 + n7 + n8 + n9));
            lemma_skip_skip(b, n1 + n2 + n3 + n4 + n5 + n6 + n7 + n8 + n9, n10);
            assert(b10 == b.skip(n1 + n2 + n3 + n4 + n5 + n6 + n7 + n8 + n9 + n10));
            lemma_skip_skip(b, n1 + n2 + n3 + n4 + n5 + n6 + n7 + n8 + n9 + n10, n11);
            assert(b10.skip(n11) == b.skip(n1 + n2 + n3 + n4 + n5 + n6 + n7 + n8 + n9 + n10 + n11));
        }
        Ok(MapInfo { width: x1, height: x2, name: x3, display_name: x4, fp: x5, background: x6, difficulty: x7, allow_player_teleport: x8, show_displays: x9, client_xml: x10, extra_xml: x11 })
    }

    #[verifier::rlimit(100)]
    #[verifier::spinoff_prover]
    fn put_be(self, out: &mut Vec<u8>) -> (res: Result<(), Error>) {
        let ghost m = self.model();
        let MapInfo { width, height, name, display_name, fp, background, difficulty, allow_player_teleport, show_displays, client_xml, extra_xml } = self;
        let ghost e1 = <u32 as NetworkAdapter>::enc_model(m.width);
        let ghost e2 = <u32 as NetworkAdapter>::enc_model(m.height);
        let ghost e3 = <RLE<String, u16> as NetworkAdapter>::enc_model(m.name);
        let ghost e4 = <RLE<String, u16> as NetworkAdapter>::enc_model(m.display_name);
        let ghost e5 = <u32 as NetworkAdapter>::enc_model(m.fp);
        let ghost e6 = <u32 as NetworkAdapter>::enc_model(m.background);
        let ghost e7 = <u32 as NetworkAdapter>::enc_model(m.difficulty);
        let ghost e8 = <bool as NetworkAdapter>::enc_model(m.allow_player_teleport);
        let ghost e9 = <bool as NetworkAdapter>::enc_model(m.show_displays);
        let ghost e10 = <RLE<Vec<RLE<String, u32>>, u16> as NetworkAdapter>::enc_model(m.client_xml);
        let ghost e11 = <RLE<Vec<RLE<String, u32>>, u16> as NetworkAdapter>::enc_model(m.extra_xml);
        let ghost p1 = e1;
        let ghost p2 = p1 + e2;
        let ghost p3 = p2 + e3;
        let ghost p4 = p3 + e4;
        let ghost p5 = p4 + e5;
        let ghost p6 = p5 + e6;
        let ghost p7 = p6 + e7;
        let ghost p8 = p7 + e8;
        let ghost p9 = p8 + e9;
        let ghost p10 = p9 + e10;
        let ghost p11 = p10 + e11;
        let mut tmp: Vec<u8> = Vec::new();
        let ghost o0 = tmp@;
        match width.put_be(&mut tmp) {
            Ok(()) => {},
            Err(e) => {
                return Err(e);
            },
        };
        let ghost o1 = tmp@;
        proof {
            assert(width.model() == m.width);
            assert(o1 == o0 + p1);
        }
        match height.put_be(&mut tmp) {
            Ok(()) => {},
            Err(e) => {
                return Err(e);
            },
        };
        let ghost o2 = tmp@;
        proof {
            assert(height.model() == m.height);
            lemma_seq_assoc(o0, p1, e2);
            assert(o2 == o0 + p2);
        }
        match name.put_be(&mut tmp) {
            Ok(()) => {},
            Err(e) => {
                return Err(e);
            },
        };
        let ghost o3 = tmp@;
        proof {
            assert(name.model() == m.name);
            lemma_seq_assoc(o0, p2, e3);
            assert(o3 == o0 + p3);
        }
        match display_name.put_be(&mut tmp) {
            Ok(()) => {},
            Err(e) => {
                return Err(e);
            },
        };
        let ghost o4 = tmp@;
        proof {
            assert(display_name.model() == m.display_name);
            lemma_seq_assoc(o0, p3, e4);
            assert(o4 == o0 + p4);
        }
        match fp.put_be(&mut tmp) {
            Ok(()) => {},
            Err(e) => {
                return Err(e);
            },
        };
        let ghost o5 = tmp@;
        proof {
            assert(fp.model() == m.fp);
            lemma_seq_assoc(o0, p4, e5);
            assert(o5 == o0 + p5);
        }
        match background.put_be(&mut tmp) {
            Ok(()) => {},
            Err(e) => {
                return Err(e);
            },
        };
        let ghost o6 = tmp@;
        proof {
            assert(background.model() == m.background);
            lemma_seq_assoc(o0, p5, e6);
            assert(o6 == o0 + p6);
        }
        match difficulty.put_be(&mut tmp) {
            Ok(()) => {},
            Err(e) => {
                return Err(e);
            },
        };
        let ghost o7 = tmp@;
        proof {
            assert(difficulty.model() == m.difficulty);
            lemma_seq_assoc(o0, p6, e7);
            assert(o7 == o0 + p7);
        }
        match allow_player_teleport.put_be(&mut tmp) {
            Ok(()) => {},
            Err(e) => {
                return Err(e);
            },
        };
        let ghost o8 = tmp@;
        proof {
            assert(allow_player_teleport.model() == m.allow_player_teleport);
            lemma_seq_assoc(o0, p7, e8);
            assert(o8 == o0 + p8);
        }
        match show_displays.put_be(&mut tmp) {
            Ok(()) => {},
            Err(e) => {
                return Err(e);
            },
        };
        let ghost o9 = tmp@;
        proof {
            assert(show_displays.model() == m.show_displays);
            lemma_seq_assoc(o0, p8, e9);
            assert(o9 == o0 + p9);
        }
        match client_xml.put_be(&mut tmp) {
            Ok(()) => {},
            Err(e) => {
                return Err(e);
            },
        };
        let ghost o10 = tmp@;
        proof {
            assert(client_xml.model() == m.client_xml);
            lemma_seq_assoc(o0, p9, e10);
            assert(o10 == o0 + p10);
        }
        match extra_xml.put_be(&mut tmp) {
            Ok(()) => {},
            Err(e) => {
                return Err(e);
            },
        };
        let ghost o11 = tmp@;
        proof {
            assert(extra_xml.model() == m.extra_xml);
            lemma_seq_assoc(o0, p10, e11);
            assert(o11 == o0 + p11);
        }
        out.append(&mut tmp);
        proof {
            assert(Self::enc_model(m) == p11);
            assert(o0 + p11 =~= p11);
            assert(out@ == old(out)@ + Self::enc_model(m));
        }
        Ok(())
    }

    #[verifier::rlimit(100)]
    #[verifier::spinoff_prover]
    proof fn lemma_dec_enc(m: MapInfoModel, rest: Seq<u8>) {
        let e1 = <u32 as NetworkAdapter>::enc_model(m.width);
        let e2 = <u32 as NetworkAdapter>::enc_model(m.height);
        let e3 = <RLE<String, u16> as NetworkAdapter>::enc_model(m.name);
        let e4 = <RLE<String, u16> as NetworkAdapter>::enc_model(m.display_name);
        let e5 = <u32 as NetworkAdapter>::enc_model(m.fp);
        let e6 = <u32 as NetworkAdapter>::enc_model(m.background);
        let e7 = <u32 as NetworkAdapter>::enc_model(m.difficulty);
        let e8 = <bool as NetworkAdapter>::enc_model(m.allow_player_teleport);
        let e9 = <bool as NetworkAdapter>::enc_model(m.show_displays);
        let e10 = <RLE<Vec<RLE<String, u32>>, u16> as NetworkAdapter>::enc_model(m.client_xml);
        let e11 = <RLE<Vec<RLE<String, u32>>, u16> as NetworkAdapter>::enc_model(m.extra_xml);
        let p1 = e1;
        let p2 = p1 + e2;
        let p3 = p2 + e3;
        let p4 = p3 + e4;
        let p5 = p4 + e5;
        let p6 = p5 + e6;
        let p7 = p6 + e7;
        let p8 = p7 + e8;
        let p9 = p8 + e9;
        let p10 = p9 + e10;
        let p11 = p10 + e11;
        assert(Self::enc_model(m) == p11);
        let r11 = rest;
        let r10 = e11 + r11;
        let r9 = e10 + r10;
        let r8 = e9 + r9;
        let r7 = e8 + r8;
        let r6 = e7 + r7;
        let r5 = e6 + r6;
        let r4 = e5 + r5;
        let r3 = e4 + r4;
        let r2 = e3 + r3;
        let r1 = e2 + r2;
        let b = Self::enc_model(m) + rest;
        lemma_seq_assoc(p10, e11, r11);
        assert(p11 + r11 == p10 + r10);
        lemma_seq_assoc(p9, e10, r10);
        assert(p10 + r10 == p9 + r9);
        lemma_seq_assoc(p8, e9, r9);
        assert(p9 + r9 == p8 + r8);
        lemma_seq_assoc(p7, e8, r8);
        assert(p8 + r8 == p7 + r7);
        lemma_seq_assoc(p6, e7, r7);
        assert(p7 + r7 == p6 + r6);
        lemma_seq_assoc(p5, e6, r6);
        assert(p6 + r6 == p5 + r5);
        lemma_seq_assoc(p4, e5, r5);
        assert(p5 + r5 == p4 + r4);
        lemma_seq_assoc(p3, e4, r4);
        assert(p4 + r4 == p3 + r3);
        lemma_seq_assoc(p2, e3, r3);
        assert(p3 + r3 == p2 + r2);
        lemma_seq_assoc(p1, e2, r2);
        assert(p2 + r2 == p1 + r1);
        assert(b == e1 + r1);
        <u32 as NetworkAdapter>::lemma_dec_enc(m.width, r1);
        <u32 as NetworkAdapter>::lemma_dec_enc(m.height, r2);
        <RLE<String, u16> as NetworkAdapter>::lemma_dec_enc(m.name, r3);
        <RLE<String, u16> as NetworkAdapter>::lemma_dec_enc(m.display_name, r4);
        <u32 as NetworkAdapter>::lemma_dec_enc(m.fp, r5);
        <u32 as NetworkAdapter>::lemma_dec_enc(m.background, r6);
        <u32 as NetworkAdapter>::lemma_dec_enc(m.difficulty, r7);
        <bool as NetworkAdapter>::lemma_dec_enc(m.allow_player_teleport, r8);
        <bool as NetworkAdapter>::lemma_dec_enc(m.show_displays, r9);
        <RLE<Vec<RLE<String, u32>>, u16> as NetworkAdapter>::lemma_dec_enc(m.client_xml, r10);
        <RLE<Vec<RLE<String, u32>>, u16> as NetworkAdapter>::lemma_dec_enc(m.extra_xml, r11);
        let c1 = b.skip(e1.len() as int);
        lemma_skip_concat(e1, r1);
        assert(c1 == r1);
        let c2 = c1.skip(e2.len() as int);
        lemma_skip_concat(e2, r2);
        assert(c2 == r2);
        let c3 = c2.skip(e3.len() as int);
        lemma_skip_concat(e3, r3);
        assert(c3 == r3);
        let c4 = c3.skip(e4.len() as int);
        lemma_skip_concat(e4, r4);
        assert(c4 == r4);
        let c5 = c4.skip(e5.len() as int);
        lemma_skip_concat(e5, r5);
        assert(c5 == r5);
        let c6 = c5.skip(e6.len() as int);
        lemma_skip_concat(e6, r6);
        assert(c6 == r6);
        let c7 = c6.skip(e7.len() as int);
        lemma_skip_concat(e7, r7);
        assert(c7 == r7);
        let c8 = c7.skip(e8.len() as int);
        lemma_skip_concat(e8, r8);
        assert(c8 == r8);
        let c9 = c8.skip(e9.len() as int);
        lemma_skip_concat(e9, r9);
        assert(c9 == r9);
        let c10 = c9.skip(e10.len() as int);
        lemma_skip_concat(e10, r10);
        assert(c10 == r10);
        assert(Self::enc_model(m).len() == e1.len() + e2.len() + e3.len() + e4.len() + e5.len() + e6.len() + e7.len() + e8.len() + e9.len() + e10.len() + e11.len());
        assert(MapInfoModel { width: m.width, height: m.height, name: m.name, display_name: m.display_name, fp: m.fp, background: m.background, difficulty: m.difficulty, allow_player_teleport: m.allow_player_teleport, show_displays: m.show_displays, client_xml: m.client_xml, extra_xml: m.extra_xml } =~= m);
    }

    #[verifier::rlimit(100)]
    #[verifier::spinoff_prover]
    proof fn lemma_enc_dec(b: Seq<u8>, m: MapInfoModel, n: int) {
        let (g1, n1) = <u32 as NetworkAdapter>::dec(b)->Ok_0;
        <u32 as NetworkAdapter>::lemma_enc_dec(b, g1, n1);
        let b1 = b.skip(n1);
        let (g2, n2) = <u32 as NetworkAdapter>::dec(b1)->Ok_0;
        <u32 as NetworkAdapter>::lemma_enc_dec(b1, g2, n2);
        let b2 = b1.skip(n2);
        let (g3, n3) = <RLE<String, u16> as NetworkAdapter>::dec(b2)->Ok_0;
        <RLE<String, u16> as NetworkAdapter>::lemma_enc_dec(b2, g3, n3);
        let b3 = b2.skip(n3);
        let (g4, n4) = <RLE<String, u16> as NetworkAdapter>::dec(b3)->Ok_0;
        <RLE<String, u16> as NetworkAdapter>::lemma_enc_dec(b3, g4, n4);
        let b4 = b3.skip(n4);
        let (g5, n5) = <u32 as NetworkAdapter>::dec(b4)->Ok_0;
        <u32 as NetworkAdapter>::lemma_enc_dec(b4, g5, n5);
        let b5 = b4.skip(n5);
        let (g6, n6) = <u32 as NetworkAdapter>::dec(b5)->Ok_0;
        <u32 as NetworkAdapter>::lemma_enc_dec(b5, g6, n6);
        let b6 = b5.skip(n6);
        let (g7, n7) = <u32 as NetworkAdapter>::dec(b6)->Ok_0;
        <u32 as NetworkAdapter>::lemma_enc_dec(b6, g7, n7);
        let b7 = b6.skip(n7);
        let (g8, n8) = <bool as NetworkAdapter>::dec(b7)->Ok_0;
        <bool as NetworkAdapter>::lemma_enc_dec(b7, g8, n8);
        let b8 = b7.skip(n8);
        let (g9, n9) = <bool as NetworkAdapter>::dec(b8)->Ok_0;
        <bool as NetworkAdapter>::lemma_enc_dec(b8, g9, n9);
        let b9 = b8.skip(n9);
        let (g10, n10) = <RLE<Vec<RLE<String, u32>>, u16> as NetworkAdapter>::dec(b9)->Ok_0;
        <RLE<Vec<RLE<String, u32>>, u16> as NetworkAdapter>::lemma_enc_dec(b9, g10, n10);
        let b10 = b9.skip(n10);
        let (g11, n11) = <RLE<Vec<RLE<String, u32>>, u16> as NetworkAdapter>::dec(b10)->Ok_0;
        <RLE<Vec<RLE<String, u32>>, u16> as NetworkAdapter>::lemma_enc_dec(b10, g11, n11);
        lemma_skip_skip(b, n1, n2);
        assert(b2 == b.skip(n1 + n2));
        lemma_skip_skip(b, n1 + n2, n3);
        assert(b3 == b.skip(n1 + n2 + n3));
        lemma_skip_skip(b, n1 + n2 + n3, n4);
        assert(b4 == b.skip(n1 + n2 + n3 + n4));
        lemma_skip_skip(b, n1 + n2 + n3 + n4, n5);
        assert(b5 == b.skip(n1 + n2 + n3 + n4 + n5));
        lemma_skip_skip(b, n1 + n2 + n3 + n4 + n5, n6);
        assert(b6 == b.skip(n1 + n2 + n3 + n4 + n5 + n6));
        lemma_skip_skip(b, n1 + n2 + n3 + n4 + n5 + n6, n7);
        assert(b7 == b.skip(n1 + n2 + n3 + n4 + n5 + n6 + n7));
        lemma_skip_skip(b, n1 + n2 + n3 + n4 + n5 + n6 + n7, n8);
        assert(b8 == b.skip(n1 + n2 + n3 + n4 + n5 + n6 + n7 + n8));
        lemma_skip_skip(b, n1 + n2 + n3 + n4 + n5 + n6 + n7 + n8, n9);
        assert(b9 == b.skip(n1 + n2 + n3 + n4 + n5 + n6 + n7 + n8 + n9));
        lemma_skip_skip(b, n1 + n2 + n3 + n4 + n5 + n6 + n7 + n8 + n9, n10);
        assert(b10 == b.skip(n1 + n2 + n3 + n4 + n5 + n6 + n7 + n8 + n9 + n10));
        assert(n == n1 + n2 + n3 + n4 + n5 + n6 + n7 + n8 + n9 + n10 + n11);
        assert(m.width == g1);
        assert(m.height == g2);
        assert(m.name == g3);
        assert(m.display_name == g4);
        assert(m.fp == g5);
        assert(m.background == g6);
        assert(m.difficulty == g7);
        assert(m.allow_player_teleport == g8);
        assert(m.show_displays == g9);
        assert(m.client_xml == g10);
        assert(m.extra_xml == g11);
        if Self::canon(b) {
            let s1 = n1;
            let s2 = s1 + n2;
            let s3 = s2 + n3;
            let s4 = s3 + n4;
            let s5 = s4 + n5;
            let s6 = s5 + n6;
            let s7 = s6 + n7;
            let s8 = s7 + n8;
            let s9 = s8 + n9;
            let s10 = s9 + n10;
            let s11 = s10 + n11;
            let q1 = <u32 as NetworkAdapter>::enc_model(m.width);
            assert(q1 == b.take(s1));
            lemma_take_concat(b, s1, n2);
            let q2 = q1 + <u32 as NetworkAdapter>::enc_model(m.height);
            assert(q2 == b.take(s2));
            lemma_take_concat(b, s2, n3);
            let q3 = q2 + <RLE<String, u16> as NetworkAdapter>::enc_model(m.name);
            assert(q3 == b.take(s3));
            lemma_take_concat(b, s3, n4);
            let q4 = q3 + <RLE<String, u16> as NetworkAdapter>::enc_model(m.display_name);
            assert(q4 == b.take(s4));
            lemma_take_concat(b, s4, n5);
            let q5 = q4 + <u32 as NetworkAdapter>::enc_model(m.fp);
            assert(q5 == b.take(s5));
            lemma_take_concat(b, s5, n6);
            let q6 = q5 + <u32 as NetworkAdapter>::enc_model(m.background);
            assert(q6 == b.take(s6));
            lemma_take_concat(b, s6, n7);
            let q7 = q6 + <u32 as NetworkAdapter>::enc_model(m.difficulty);
            assert(q7 == b.take(s7));
            lemma_take_concat(b, s7, n8);
            let q8 = q7 + <bool as NetworkAdapter>::enc_model(m.allow_player_teleport);
            assert(q8 == b.take(s8));
            lemma_take_concat(b, s8, n9);
            let q9 = q8 + <bool as NetworkAdapter>::enc_model(m.show_displays);
            assert(q9 == b.take(s9));
            lemma_take_concat(b, s9, n10);
            let q10 = q9 + <RLE<Vec<RLE<String, u32>>, u16> as NetworkAdapter>::enc_model(m.client_xml);
            assert(q10 == b.take(s10));
            lemma_take_concat(b, s10, n11);
            let q11 = q10 + <RLE<Vec<RLE<String, u32>>, u16> as NetworkAdapter>::enc_model(m.extra_xml);
            assert(q11 == b.take(s11));
            assert(Self::enc_model(m) == q11);
            assert(Self::enc_model(m) == b.take(n));
        }
    }
}

#[verifier::ext_equal]
#[derive(Debug, PartialEq, Clone)]
pub struct NameResult {
    pub success: bool,
    pub error_text: RLE<String, u16>,
}

/// The mathematical model of a decoded `NameResult`.
#[verifier::ext_equal]
pub struct NameResultModel {
    pub success: bool,
    pub error_text: Seq<char>,
}

impl NetworkAdapter for NameResult {
    type Model = NameResultModel;

    open spec fn model(self) -> NameResultModel {
        NameResultModel {
            success: self.success.model(),
            error_text: self.error_text.model(),
        }
    }

    open spec fn enc_model(m: NameResultModel) -> Seq<u8> {
        <bool as NetworkAdapter>::enc_model(m.success) + <RLE<String, u16> as NetworkAdapter>::enc_model(m.error_text)
    }

    open spec fn valid_model(m: NameResultModel) -> bool {
        <bool as NetworkAdapter>::valid_model(m.success) && <RLE<String, u16> as NetworkAdapter>::valid_model(m.error_text)
    }

    closed spec fn dec(b: Seq<u8>) -> Result<(NameResultModel, int), Error> {
        match <bool as NetworkAdapter>::dec(b) {
            Ok((g1, n1)) => {
                let b1 = b.skip(n1);
                match <RLE<String, u16> as NetworkAdapter>::dec(b1) {
                    Ok((g2, n2)) => {
                        Ok((NameResultModel { success: g1, error_text: g2 }, n1 + n2))
                    },
                    Err(e) => Err(e),
                }
            },
            Err(e) => Err(e),
        }
    }

    closed spec fn canon(b: Seq<u8>) -> bool {
        match <bool as NetworkAdapter>::dec(b) {
            Ok((g1, n1)) => <bool as NetworkAdapter>::canon(b) && {
                let b1 = b.skip(n1);
                match <RLE<String, u16> as NetworkAdapter>::dec(b1) {
                    Ok((g2, n2)) => <RLE<String, u16> as NetworkAdapter>::canon(b1) && {
                        true
                    },
                    Err(e) => true,
                }
            },
            Err(e) => true,
        }
    }

    fn get_be(r: &mut Reader) -> (res: Result<NameResult, Error>) {
        let ghost b = old(r).remaining_bytes();
        let save = r.position();
        let x1 = match <bool as NetworkAdapter>::get_be(r) {
            Ok(v) => v,
            Err(e) => {
                r.seek(save);
                return Err(e);
            },
        };
        let x2 = match <RLE<String, u16> as NetworkAdapter>::get_be(r) {
            Ok(v) => v,
            Err(e) => {
                r.seek(save);
                return Err(e);
            },
        };
        proof {
            let (g1, n1) = <bool as NetworkAdapter>::dec(b)->Ok_0;
            let b1 = b.skip(n1);
            let (g2, n2) = <RLE<String, u16> as NetworkAdapter>::dec(b1)->Ok_0;
            lemma_skip_skip(b, n1, n2);
            assert(b1.skip(n2) == b.skip(n1 + n2));
        }
        Ok(NameResult { success: x1, error_text: x2 })
    }

    fn put_be(self, out: &mut Vec<u8>) -> (res: Result<(), Error>) {
        let ghost m = self.model();
        let NameResult { success, error_text } = self;
        let ghost e1 = <bool as NetworkAdapter>::enc_model(m.success);
        let ghost e2 = <RLE<String, u16> as NetworkAdapter>::enc_model(m.error_text);
        let ghost p1 = e1;
        let ghost p2 = p1 + e2;
        let mut tmp: Vec<u8> = Vec::new();
        let ghost o0 = tmp@;
        match success.put_be(&mut tmp) {
            Ok(()) => {},
            Err(e) => {
                return Err(e);
            },
        };
        let ghost o1 = tmp@;
        proof {
            assert(success.model() == m.success);
            assert(o1 == o0 + p1);
        }
        match error_text.put_be(&mut tmp) {
            Ok(()) => {},
            Err(e) => {
                return Err(e);
            },
        };
        let ghost o2 = tmp@;
        proof {
            assert(error_text.model() == m.error_text);
            lemma_seq_assoc(o0, p1, e2);
            assert(o2 == o0 + p2);
        }
        out.append(&mut tmp);
        proof {
            assert(Self::enc_model(m) == p2);
            assert(o0 + p2 =~= p2);
            assert(out@ == old(out)@ + Self::enc_model(m));
        }
        Ok(())
    }

    proof fn lemma_dec_enc(m: NameResultModel, rest: Seq<u8>) {
        let e1 = <bool as NetworkAdapter>::enc_model(m.success);
        let e2 = <RLE<String, u16> as NetworkAdapter>::enc_model(m.error_text);
        let p1 = e1;
        let p2 = p1 + e2;
        assert(Self::enc_model(m) == p2);
        let r2 = rest;
        let r1 = e2 + r2;
        let b = Self::enc_model(m) + rest;
        lemma_seq_assoc(p1, e2, r2);
        assert(p2 + r2 == p1 + r1);
        assert(b == e1 + r1);
        <bool as NetworkAdapter>::lemma_dec_enc(m.success, r1);
        <RLE<String, u16> as NetworkAdapter>::lemma_dec_enc(m.error_text, r2);
        let c1 = b.skip(e1.len() as int);
        lemma_skip_concat(e1, r1);
        assert(c1 == r1);
        assert(Self::enc_model(m).len() == e1.len() + e2.len());
        assert(NameResultModel { success: m.success, error_text: m.error_text } =~= m);
    }

    proof fn lemma_enc_dec(b: Seq<u8>, m: NameResultModel, n: int) {
        let (g1, n1) = <bool as NetworkAdapter>::dec(b)->Ok_0;
        <bool as NetworkAdapter>::lemma_enc_dec(b, g1, n1);
        let b1 = b.skip(n1);
        let (g2, n2) = <RLE<String, u16> as NetworkAdapter>::dec(b1)->Ok_0;
        <RLE<String, u16> as NetworkAdapter>::lemma_enc_dec(b1, g2, n2);
        assert(n == n1 + n2);
        assert(m.success == g1);
        assert(m.error_text == g2);
        if Self::canon(b) {
            let s1 = n1;
            let s2 = s1 + n2;
            let q1 = <bool as NetworkAdapter>::enc_model(m.success);
            assert(q1 == b.take(s1));
            lemma_take_concat(b, s1, n2);
            let q2 = q1 + <RLE<String, u16> as NetworkAdapter>::enc_model(m.error_text);
            assert(q2 == b.take(s2));
            assert(Self::enc_model(m) == q2);
            assert(Self::enc_model(m) == b.take(n));
        }
    }
}

#[verifier::ext_equal]
#[derive(Debug, PartialEq, Clone)]
pub struct NewAbility {
    pub typ: u32,
}

impl NetworkAdapter for NewAbility {
    type Model = NewAbility;

    open spec fn model(self) -> NewAbility {
        self
    }

    open spec fn enc_model(m: NewAbility) -> Seq<u8> {
        <u32 as NetworkAdapter>::enc_model(m.typ)
    }

    open spec fn valid_model(m: NewAbility) -> bool {
        <u32 as NetworkAdapter>::valid_model(m.typ)
    }

    closed spec fn dec(b: Seq<u8>) -> Result<(NewAbility, int), Error> {
        match <u32 as NetworkAdapter>::dec(b) {
            Ok((g1, n1)) => {
                Ok((NewAbility { typ: g1 }, n1))
            },
            Err(e) => Err(e),
        }
    }

    closed spec fn canon(b: Seq<u8>) -> bool {
        match <u32 as NetworkAdapter>::dec(b) {
            Ok((g1, n1)) => <u32 as NetworkAdapter>::canon(b) && {
                true
            },
            Err(e) => true,
        }
    }

    fn get_be(r: &mut Reader) -> (res: Result<NewAbility, Error>) {
        let ghost b = old(r).remaining_bytes();
        let save = r.position();
        let x1 = match <u32 as NetworkAdapter>::get_be(r) {
            Ok(v) => v,
            Err(e) => {
                r.seek(save);
                return Err(e);
            },
        };
        proof {
            let (g1, n1) = <u32 as NetworkAdapter>::dec(b)->Ok_0;
        }
        Ok(NewAbility { typ: x1 })
    }

    fn put_be(self, out: &mut Vec<u8>) -> (res: Result<(), Error>) {
        let ghost m = self.model();
        let NewAbility { typ } = self;
        let ghost e1 = <u32 as NetworkAdapter>::enc_model(m.typ);
        let ghost p1 = e1;
        let mut tmp: Vec<u8> = Vec::new();
        let ghost o0 = tmp@;
        match typ.put_be(&mut tmp) {
            Ok(()) => {},
            Err(e) => {
                return Err(e);
            },
        };
        let ghost o1 = tmp@;
        proof {
            assert(typ == m.typ);
            assert(o1 == o0 + p1);
        }
        out.append(&mut tmp);
        proof {
            assert(Self::enc_model(m) == p1);
            assert(o0 + p1 =~= p1);
            assert(out@ == old(out)@ + Self::enc_model(m));
        }
        Ok(())
    }

    proof fn lemma_dec_enc(m: NewAbility, rest: Seq<u8>) {
        let e1 = <u32 as NetworkAdapter>::enc_model(m.typ);
        let p1 = e1;
        assert(Self::enc_model(m) == p1);
        let r1 = rest;
        let b = Self::enc_model(m) + rest;
        assert(b == e1 + r1);
        <u32 as NetworkAdapter>::lemma_dec_enc(m.typ, r1);
        assert(Self::enc_model(m).len() == e1.len());
        assert(NewAbility { typ: m.typ } =~= m);
    }

    proof fn lemma_enc_dec(b: Seq<u8>, m: NewAbility, n: int) {
        let (g1, n1) = <u32 as NetworkAdapter>::dec(b)->Ok_0;
        <u32 as NetworkAdapter>::lemma_enc_dec(b, g1, n1);
        assert(n == n1);
        assert(m.typ == g1);
        if Self::canon(b) {
            let s1 = n1;
            let q1 = <u32 as NetworkAdapter>::enc_model(m.typ);
            assert(q1 == b.take(s1));
            assert(Self::enc_model(m) == q1);
            assert(Self::enc_model(m) == b.take(n));
        }
    }
}

#[verifier::ext_equal]
#[derive(Debug, PartialEq, Clone)]
pub struct NewTick {
    pub tick_id: u32,
    pub tick_time: u32,
    pub statuses: RLE<Vec<ObjectStatusData>, u16>,
}

/// The mathematical model of a decoded `NewTick`.
#[verifier::ext_equal]
pub struct NewTickModel {
    pub tick_id: u32,
    pub tick_time: u32,
    pub statuses: Seq<ObjectStatusDataModel>,
}

impl NetworkAdapter for NewTick {
    type Model = NewTickModel;

    open spec fn model(self) -> NewTickModel {
        NewTickModel {
            tick_id: self.tick_id.model(),
            tick_time: self.tick_time.model(),
            statuses: self.statuses.model(),
        }
    }

    open spec fn enc_model(m: NewTickModel) -> Seq<u8> {
        <u32 as NetworkAdapter>::enc_model(m.tick_id) + <u32 as NetworkAdapter>::enc_model(m.tick_time) + <RLE<Vec<ObjectStatusData>, u16> as NetworkAdapter>::enc_model(m.statuses)
    }

    open spec fn valid_model(m: NewTickModel) -> bool {
        <u32 as NetworkAdapter>::valid_model(m.tick_id) && <u32 as NetworkAdapter>::valid_model(m.tick_time) && <RLE<Vec<ObjectStatusData>, u16> as NetworkAdapter>::valid_model(m.statuses)
    }

    closed spec fn dec(b: Seq<u8>) -> Result<(NewTickModel, int), Error> {
        match <u32 as NetworkAdapter>::dec(b) {
            Ok((g1, n1)) => {
                let b1 = b.skip(n1);
                match <u32 as NetworkAdapter>::dec(b1) {
                    Ok((g2, n2)) => {
                        let b2 = b1.skip(n2);
                        match <RLE<Vec<ObjectStatusData>, u16> as NetworkAdapter>::dec(b2) {
                            Ok((g3, n3)) => {
                                Ok((NewTickModel { tick_id: g1, tick_time: g2, statuses: g3 }, n1 + n2 + n3))
                            },
                            Err(e) => Err(e),
                        }
                    },
                    Err(e) => Err(e),
                }
            },
            Err(e) => Err(e),
        }
    }

    closed spec fn canon(b: Seq<u8>) -> bool {
        match <u32 as NetworkAdapter>::dec(b) {
            Ok((g1, n1)) => <u32 as NetworkAdapter>::canon(b) && {
                let b1 = b.skip(n1);
                match <u32 as NetworkAdapter>::dec(b1) {
                    Ok((g2, n2)) => <u32 as NetworkAdapter>::canon(b1) && {
                        let b2 = b1.skip(n2);
                        match <RLE<Vec<ObjectStatusData>, u16> as NetworkAdapter>::dec(b2) {
                            Ok((g3, n3)) => <RLE<Vec<ObjectStatusData>, u16> as NetworkAdapter>::canon(b2) && {
                                true
                            },
                            Err(e) => true,
                        }
                    },
                    Err(e) => true,
                }
            },
            Err(e) => true,
        }
    }

    fn get_be(r: &mut Reader) -> (res: Result<NewTick, Error>) {
        let ghost b = old(r).remaining_bytes();
        let save = r.position();
        let x1 = match <u32 as NetworkAdapter>::get_be(r) {
            Ok(v) => v,
            Err(e) => {
                r.seek(save);
                return Err(e);
            },
        };
        let x2 = match <u32 as NetworkAdapter>::get_be(r) {
            Ok(v) => v,
            Err(e) => {
                r.seek(save);
                return Err(e);
            },
        };
        let x3 = match <RLE<Vec<ObjectStatusData>, u16> as NetworkAdapter>::get_be(r) {
            Ok(v) => v,
            Err(e) => {
                r.seek(save);
                return Err(e);
            },
        };
        proof {
            let (g1, n1) = <u32 as NetworkAdapter>::dec(b)->Ok_0;
            let b1 = b.skip(n1);
            let (g2, n2) = <u32 as NetworkAdapter>::dec(b1)->Ok_0;
            let b2 = b1.skip(n2);
            let (g3, n3) = <RLE<Vec<ObjectStatusData>, u16> as NetworkAdapter>::dec(b2)->Ok_0;
            lemma_skip_skip(b, n1, n2);
            assert(b2 == b.skip(n1 + n2));
            lemma_skip_skip(b, n1 + n2, n3);
            assert(b2.skip(n3) == b.skip(n1 + n2 + n3));
        }
        Ok(NewTick { tick_id: x1, tick_time: x2, statuses: x3 })
    }

    fn put_be(self, out: &mut Vec<u8>) -> (res: Result<(), Error>) {
        let ghost m = self.model();
        let NewTick { tick_id, tick_time, statuses } = self;
        let ghost e1 = <u32 as NetworkAdapter>::enc_model(m.tick_id);
        let ghost e2 = <u32 as NetworkAdapter>::enc_model(m.tick_time);
        let ghost e3 = <RLE<Vec<ObjectStatusData>, u16> as NetworkAdapter>::enc_model(m.statuses);
        let ghost p1 = e1;
        let ghost p2 = p1 + e2;
        let ghost p3 = p2 + e3;
        let mut tmp: Vec<u8> = Vec::new();
        let ghost o0 = tmp@;
        match tick_id.put_be(&mut tmp) {
            Ok(()) => {},
            Err(e) => {
                return Err(e);
            },
        };
        let ghost o1 = tmp@;
        proof {
            assert(tick_id.model() == m.tick_id);
            assert(o1 == o0 + p1);
        }
        match tick_time.put_be(&mut tmp) {
            Ok(()) => {},
            Err(e) => {
                return Err(e);
            },
        };
        let ghost o2 = tmp@;
        proof {
            assert(tick_time.model() == m.tick_time);
            lemma_seq_assoc(o0, p1, e2);
            assert(o2 == o0 + p2);
        }
        match statuses.put_be(&mut tmp) {
            Ok(()) => {},
            Err(e) => {
                return Err(e);
            },
        };
        let ghost o3 = tmp@;
        proof {
            assert(statuses.model() == m.statuses);
            lemma_seq_assoc(o0, p2, e3);
            assert(o3 == o0 + p3);
        }
        out.append(&mut tmp);
        proof {
            assert(Self::enc_model(m) == p3);
            assert(o0 + p3 =~= p3);
            assert(out@ == old(out)@ + Self::enc_model(m));
        }
        Ok(())
    }

    proof fn lemma_dec_enc(m: NewTickModel, rest: Seq<u8>) {
        let e1 = <u32 as NetworkAdapter>::enc_model(m.tick_id);
        let e2 = <u32 as NetworkAdapter>::enc_model(m.tick_time);
        let e3 = <RLE<Vec<ObjectStatusData>, u16> as NetworkAdapter>::enc_model(m.statuses);
        let p1 = e1;
        let p2 = p1 + e2;
        let p3 = p2 + e3;
        assert(Self::enc_model(m) == p3);
        let r3 = rest;
        let r2 = e3 + r3;
        let r1 = e2 + r2;
        let b = Self::enc_model(m) + rest;
        lemma_seq_assoc(p2, e3, r3);
        assert(p3 + r3 == p2 + r2);
        lemma_seq_assoc(p1, e2, r2);
        assert(p2 + r2 == p1 + r1);
        assert(b == e1 + r1);
        <u32 as NetworkAdapter>::lemma_dec_enc(m.tick_id, r1);
        <u32 as NetworkAdapter>::lemma_dec_enc(m.tick_time, r2);
        <RLE<Vec<ObjectStatusData>, u16> as NetworkAdapter>::lemma_dec_enc(m.statuses, r3);
        let c1 = b.skip(e1.len() as int);
        lemma_skip_concat(e1, r1);
        assert(c1 == r1);
        let c2 = c1.skip(e2.len() as int);
        lemma_skip_concat(e2, r2);
        assert(c2 == r2);
        assert(Self::enc_model(m).len() == e1.len() + e2.len() + e3.len());
        assert(NewTickModel { tick_id: m.tick_id, tick_time: m.tick_time, statuses: m.statuses } =~= m);
    }

    proof fn lemma_enc_dec(b: Seq<u8>, m: NewTickModel, n: int) {
        let (g1, n1) = <u32 as NetworkAdapter>::dec(b)->Ok_0;
        <u32 as NetworkAdapter>::lemma_enc_dec(b, g1, n1);
        let b1 = b.skip(n1);
        let (g2, n2) = <u32 as NetworkAdapter>::dec(b1)->Ok_0;
        <u32 as NetworkAdapter>::lemma_enc_dec(b1, g2, n2);
        let b2 = b1.skip(n2);
        let (g3, n3) = <RLE<Vec<ObjectStatusData>, u16> as NetworkAdapter>::dec(b2)->Ok_0;
        <RLE<Vec<ObjectStatusData>, u16> as NetworkAdapter>::lemma_enc_dec(b2, g3, n3);
        lemma_skip_skip(b, n1, n2);
        assert(b2 == b.skip(n1 + n2));
        assert(n == n1 + n2 + n3);
        assert(m.tick_id == g1);
        assert(m.tick_time == g2);
        assert(m.statuses == g3);
        if Self::canon(b) {
            let s1 = n1;
            let s2 = s1 + n2;
            let s3 = s2 + n3;
            let q1 = <u32 as NetworkAdapter>::enc_model(m.tick_id);
            assert(q1 == b.take(s1));
            lemma_take_concat(b, s1, n2);
            let q2 = q1 + <u32 as NetworkAdapter>::enc_model(m.tick_time);
            assert(q2 == b.take(s2));
            lemma_take_concat(b, s2, n3);
            let q3 = q2 + <RLE<Vec<ObjectStatusData>, u16> as NetworkAdapter>::enc_model(m.statuses);
            assert(q3 == b.take(s3));
            assert(Self::enc_model(m) == q3);
            assert(Self::enc_model(m) == b.take(n));
        }
    }
}

#[verifier::ext_equal]
#[derive(Debug, PartialEq, Clone)]
pub struct Notification {
    pub object_id: u32,
    pub message: RLE<String, u16>,
    pub color: u32,
}

/// The mathematical model of a decoded `Notification`.
#[verifier::ext_equal]
pub struct NotificationModel {
    pub object_id: u32,
    pub message: Seq<char>,
    pub color: u32,
}

impl NetworkAdapter for Notification {
    type Model = NotificationModel;

    open spec fn model(self) -> NotificationModel {
        NotificationModel {
            object_id: self.object_id.model(),
            message: self.message.model(),
            color: self.color.model(),
        }
    }

    open spec fn enc_model(m: NotificationModel) -> Seq<u8> {
        <u32 as NetworkAdapter>::enc_model(m.object_id) + <RLE<String, u16> as NetworkAdapter>::enc_model(m.message) + <u32 as NetworkAdapter>::enc_model(m.color)
    }

    open spec fn valid_model(m: NotificationModel) -> bool {
        <u32 as NetworkAdapter>::valid_model(m.object_id) && <RLE<String, u16> as NetworkAdapter>::valid_model(m.message) && <u32 as NetworkAdapter>::valid_model(m.color)
    }

    closed spec fn dec(b: Seq<u8>) -> Result<(NotificationModel, int), Error> {
        match <u32 as NetworkAdapter>::dec(b) {
            Ok((g1, n1)) => {
                let b1 = b.skip(n1);
                match <RLE<String, u16> as NetworkAdapter>::dec(b1) {
                    Ok((g2, n2)) => {
                        let b2 = b1.skip(n2);
                        match <u32 as NetworkAdapter>::dec(b2) {
                            Ok((g3, n3)) => {
                                Ok((NotificationModel { object_id: g1, message: g2, color: g3 }, n1 + n2 + n3))
                            },
                            Err(e) => Err(e),
                        }
                    },
                    Err(e) => Err(e),
                }
            },
            Err(e) => Err(e),
        }
    }

    closed spec fn canon(b: Seq<u8>) -> bool {
        match <u32 as NetworkAdapter>::dec(b) {
            Ok((g1, n1)) => <u32 as NetworkAdapter>::canon(b) && {
                let b1 = b.skip(n1);
                match <RLE<String, u16> as NetworkAdapter>::dec(b1) {
                    Ok((g2, n2)) => <RLE<String, u16> as NetworkAdapter>::canon(b1) && {
                        let b2 = b1.skip(n2);
                        match <u32 as NetworkAdapter>::dec(b2) {
                            Ok((g3, n3)) => <u32 as NetworkAdapter>::canon(b2) && {
                                true
                            },
                            Err(e) => true,
                        }
                    },
                    Err(e) => true,
                }
            },
            Err(e) => true,
        }
    }

    fn get_be(r: &mut Reader) -> (res: Result<Notification, Error>) {
        let ghost b = old(r).remaining_bytes();
        let save = r.position();
        let x1 = match <u32 as NetworkAdapter>::get_be(r) {
            Ok(v) => v,
            Err(e) => {
                r.seek(save);
                return Err(e);
            },
        };
        let x2 = match <RLE<String, u16> as NetworkAdapter>::get_be(r) {
            Ok(v) => v,
            Err(e) => {
                r.seek(save);
                return Err(e);
            },
        };
        let x3 = match <u32 as NetworkAdapter>::get_be(r) {
            Ok(v) => v,
            Err(e) => {
                r.seek(save);
                return Err(e);
            },
        };
        proof {
            let (g1, n1) = <u32 as NetworkAdapter>::dec(b)->Ok_0;
            let b1 = b.skip(n1);
            let (g2, n2) = <RLE<String, u16> as NetworkAdapter>::dec(b1)->Ok_0;
            let b2 = b1.skip(n2);
            let (g3, n3) = <u32 as NetworkAdapter>::dec(b2)->Ok_0;
            lemma_skip_skip(b, n1, n2);
            assert(b2 == b.skip(n1 + n2));
            lemma_skip_skip(b, n1 + n2, n3);
            assert(b2.skip(n3) == b.skip(n1 + n2 + n3));
        }
        Ok(Notification { object_id: x1, message: x2, color: x3 })
    }

    fn put_be(self, out: &mut Vec<u8>) -> (res: Result<(), Error>) {
        let ghost m = self.model();
        let Notification { object_id, message, color } = self;
        let ghost e1 = <u32 as NetworkAdapter>::enc_model(m.object_id);
        let ghost e2 = <RLE<String, u16> as NetworkAdapter>::enc_model(m.message);
        let ghost e3 = <u32 as NetworkAdapter>::enc_model(m.color);
        let ghost p1 = e1;
        let ghost p2 = p1 + e2;
        let ghost p3 = p2 + e3;
        let mut tmp: Vec<u8> = Vec::new();
        let ghost o0 = tmp@;
        match object_id.put_be(&mut tmp) {
            Ok(()) => {},
            Err(e) => {
                return Err(e);
            },
        };
        let ghost o1 = tmp@;
        proof {
            assert(object_id.model() == m.object_id);
            assert(o1 == o0 + p1);
        }
        match message.put_be(&mut tmp) {
            Ok(()) => {},
            Err(e) => {
                return Err(e);
            },
        };
        let ghost o2 = tmp@;
        proof {
            assert(message.model() == m.message);
            lemma_seq_assoc(o0, p1, e2);
            assert(o2 == o0 + p2);
        }
        match color.put_be(&mut tmp) {
            Ok(()) => {},
            Err(e) => {
                return Err(e);
            },
        };
        let ghost o3 = tmp@;
        proof {
            assert(color.model() == m.color);
            lemma_seq_assoc(o0, p2, e3);
            assert(o3 == o0 + p3);
        }
        out.append(&mut tmp);
        proof {
            assert(Self::enc_model(m) == p3);
            assert(o0 + p3 =~= p3);
            assert(out@ == old(out)@ + Self::enc_model(m));
        }
        Ok(())
    }

    proof fn lemma_dec_enc(m: NotificationModel, rest: Seq<u8>) {
        let e1 = <u32 as NetworkAdapter>::enc_model(m.object_id);
        let e2 = <RLE<String, u16> as NetworkAdapter>::enc_model(m.message);
        let e3 = <u32 as NetworkAdapter>::enc_model(m.color);
        let p1 = e1;
        let p2 = p1 + e2;
        let p3 = p2 + e3;
        assert(Self::enc_model(m) == p3);
        let r3 = rest;
        let r2 = e3 + r3;
        let r1 = e2 + r2;
        let b = Self::enc_model(m) + rest;
        lemma_seq_assoc(p2, e3, r3);
        assert(p3 + r3 == p2 + r2);
        lemma_seq_assoc(p1, e2, r2);
        assert(p2 + r2 == p1 + r1);
        assert(b == e1 + r1);
        <u32 as NetworkAdapter>::lemma_dec_enc(m.object_id, r1);
        <RLE<String, u16> as NetworkAdapter>::lemma_dec_enc(m.message, r2);
        <u32 as NetworkAdapter>::lemma_dec_enc(m.color, r3);
        let c1 = b.skip(e1.len() as int);
        lemma_skip_concat(e1, r1);
        assert(c1 == r1);
        let c2 = c1.skip(e2.len() as int);
        lemma_skip_concat(e2, r2);
        assert(c2 == r2);
        assert(Self::enc_model(m).len() == e1.len() + e2.len() + e3.len());
        assert(NotificationModel { object_id: m.object_id, message: m.message, color: m.color } =~= m);
    }

    proof fn lemma_enc_dec(b: Seq<u8>, m: NotificationModel, n: int) {
        let (g1, n1) = <u32 as NetworkAdapter>::dec(b)->Ok_0;
        <u32 as NetworkAdapter>::lemma_enc_dec(b, g1, n1);
        let b1 = b.skip(n1);
        let (g2, n2) = <RLE<String, u16> as NetworkAdapter>::dec(b1)->Ok_0;
        <RLE<String, u16> as NetworkAdapter>::lemma_enc_dec(b1, g2, n2);
        let b2 = b1.skip(n2);
        let (g3, n3) = <u32 as NetworkAdapter>::dec(b2)->Ok_0;
        <u32 as NetworkAdapter>::lemma_enc_dec(b2, g3, n3);
        lemma_skip_skip(b, n1, n2);
        assert(b2 == b.skip(n1 + n2));
        assert(n == n1 + n2 + n3);
        assert(m.object_id == g1);
        assert(m.message == g2);
        assert(m.color == g3);
        if Self::canon(b) {
            let s1 = n1;
            let s2 = s1 + n2;
            let s3 = s2 + n3;
            let q1 = <u32 as NetworkAdapter>::enc_model(m.object_id);
            assert(q1 == b.take(s1));
            lemma_take_concat(b, s1, n2);
            let q2 = q1 + <RLE<String, u16> as NetworkAdapter>::enc_model(m.message);
            assert(q2 == b.take(s2));
            lemma_take_concat(b, s2, n3);
            let q3 = q2 + <u32 as NetworkAdapter>::enc_model(m.color);
            assert(q3 == b.take(s3));
            assert(Self::enc_model(m) == q3);
            assert(Self::enc_model(m) == b.take(n));
        }
    }
}

#[verifier::ext_equal]
#[derive(Debug, PartialEq, Clone)]
pub struct PasswordPrompt {
    pub clean_password_status: u32,
}

impl NetworkAdapter for PasswordPrompt {
    type Model = PasswordPrompt;

    open spec fn model(self) -> PasswordPrompt {
        self
    }

    open spec fn enc_model(m: PasswordPrompt) -> Seq<u8> {
        <u32 as NetworkAdapter>::enc_model(m.clean_password_status)
    }

    open spec fn valid_model(m: PasswordPrompt) -> bool {
        <u32 as NetworkAdapter>::valid_model(m.clean_password_status)
    }

    closed spec fn dec(b: Seq<u8>) -> Result<(PasswordPrompt, int), Error> {
        match <u32 as NetworkAdapter>::dec(b) {
            Ok((g1, n1)) => {
                Ok((PasswordPrompt { clean_password_status: g1 }, n1))
            },
            Err(e) => Err(e),
        }
    }

    closed spec fn canon(b: Seq<u8>) -> bool {
        match <u32 as NetworkAdapter>::dec(b) {
            Ok((g1, n1)) => <u32 as NetworkAdapter>::canon(b) && {
                true
            },
            Err(e) => true,
        }
    }

    fn get_be(r: &mut Reader) -> (res: Result<PasswordPrompt, Error>) {
        let ghost b = old(r).remaining_bytes();
        let save = r.position();
        let x1 = match <u32 as NetworkAdapter>::get_be(r) {
            Ok(v) => v,
            Err(e) => {
                r.seek(save);
                return Err(e);
            },
        };
        proof {
            let (g1, n1) = <u32 as NetworkAdapter>::dec(b)->Ok_0;
        }
        Ok(PasswordPrompt { clean_password_status: x1 })
    }

    fn put_be(self, out: &mut Vec<u8>) -> (res: Result<(), Error>) {
        let ghost m = self.model();
        let PasswordPrompt { clean_password_status } = self;
        let ghost e1 = <u32 as NetworkAdapter>::enc_model(m.clean_password_status);
        let ghost p1 = e1;
        let mut tmp: Vec<u8> = Vec::new();
        let ghost o0 = tmp@;
        match clean_password_status.put_be(&mut tmp) {
            Ok(()) => {},
            Err(e) => {
                return Err(e);
            },
        };
        let ghost o1 = tmp@;
        proof {
            assert(clean_password_status == m.clean_password_status);
            assert(o1 == o0 + p1);
        }
        out.append(&mut tmp);
        proof {
            assert(Self::enc_model(m) == p1);
            assert(o0 + p1 =~= p1);
            assert(out@ == old(out)@ + Self::enc_model(m));
        }
        Ok(())
    }

    proof fn lemma_dec_enc(m: PasswordPrompt, rest: Seq<u8>) {
        let e1 = <u32 as NetworkAdapter>::enc_model(m.clean_password_status);
        let p1 = e1;
        assert(Self::enc_model(m) == p1);
        let r1 = rest;
        let b = Self::enc_model(m) + rest;
        assert(b == e1 + r1);
        <u32 as NetworkAdapter>::lemma_dec_enc(m.clean_password_status, r1);
        assert(Self::enc_model(m).len() == e1.len());
        assert(PasswordPrompt { clean_password_status: m.clean_password_status } =~= m);
    }

    proof fn lemma_enc_dec(b: Seq<u8>, m: PasswordPrompt, n: int) {
        let (g1, n1) = <u32 as NetworkAdapter>::dec(b)->Ok_0;
        <u32 as NetworkAdapter>::lemma_enc_dec(b, g1, n1);
        assert(n == n1);
        assert(m.clean_password_status == g1);
        if Self::canon(b) {
            let s1 = n1;
            let q1 = <u32 as NetworkAdapter>::enc_model(m.clean_password_status);
            assert(q1 == b.take(s1));
            assert(Self::enc_model(m) == q1);
            assert(Self::enc_model(m) == b.take(n));
        }
    }
}

#[verifier::ext_equal]
#[derive(Debug, PartialEq, Clone)]
pub struct PetYardUpdate {
    pub typ: u32,
}

impl NetworkAdapter for PetYardUpdate {
    type Model = PetYardUpdate;

    open spec fn model(self) -> PetYardUpdate {
        self
    }

    open spec fn enc_model(m: PetYardUpdate) -> Seq<u8> {
        <u32 as NetworkAdapter>::enc_model(m.typ)
    }

    open spec fn valid_model(m: PetYardUpdate) -> bool {
        <u32 as NetworkAdapter>::valid_model(m.typ)
    }

    closed spec fn dec(b: Seq<u8>) -> Result<(PetYardUpdate, int), Error> {
        match <u32 as NetworkAdapter>::dec(b) {
            Ok((g1, n1)) => {
                Ok((PetYardUpdate { typ: g1 }, n1))
            },
            Err(e) => Err(e),
        }
    }

    closed spec fn canon(b: Seq<u8>) -> bool {
        match <u32 as NetworkAdapter>::dec(b) {
            Ok((g1, n1)) => <u32 as NetworkAdapter>::canon(b) && {
                true
            },
            Err(e) => true,
        }
    }

    fn get_be(r: &mut Reader) -> (res: Result<PetYardUpdate, Error>) {
        let ghost b = old(r).remaining_bytes();
        let save = r.position();
        let x1 = match <u32 as NetworkAdapter>::get_be(r) {
            Ok(v) => v,
            Err(e) => {
                r.seek(save);
                return Err(e);
            },
        };
        proof {
            let (g1, n1) = <u32 as NetworkAdapter>::dec(b)->Ok_0;
        }
        Ok(PetYardUpdate { typ: x1 })
    }

    fn put_be(self, out: &mut Vec<u8>) -> (res: Result<(), Error>) {
        let ghost m = self.model();
        let PetYardUpdate { typ } = self;
        let ghost e1 = <u32 as NetworkAdapter>::enc_model(m.typ);
        let ghost p1 = e1;
        let mut tmp: Vec<u8> = Vec::new();
        let ghost o0 = tmp@;
        match typ.put_be(&mut tmp) {
            Ok(()) => {},
            Err(e) => {
                return Err(e);
            },
        };
        let ghost o1 = tmp@;
        proof {
            assert(typ == m.typ);
            assert(o1 == o0 + p1);
        }
        out.append(&mut tmp);
        proof {
            assert(Self::enc_model(m) == p1);
            assert(o0 + p1 =~= p1);
            assert(out@ == old(out)@ + Self::enc_model(m));
        }
        Ok(())
    }

    proof fn lemma_dec_enc(m: PetYardUpdate, rest: Seq<u8>) {
        let e1 = <u32 as NetworkAdapter>::enc_model(m.typ);
        let p1 = e1;
        assert(Self::enc_model(m) == p1);
        let r1 = rest;
        let b = Self::enc_model(m) + rest;
        assert(b == e1 + r1);
        <u32 as NetworkAdapter>::lemma_dec_enc(m.typ, r1);
        assert(Self::enc_model(m).len() == e1.len());
        assert(PetYardUpdate { typ: m.typ } =~= m);
    }

    proof fn lemma_enc_dec(b: Seq<u8>, m: PetYardUpdate, n: int) {
        let (g1, n1) = <u32 as NetworkAdapter>::dec(b)->Ok_0;
        <u32 as NetworkAdapter>::lemma_enc_dec(b, g1, n1);
        assert(n == n1);
        assert(m.typ == g1);
        if Self::canon(b) {
            let s1 = n1;
            let q1 = <u32 as NetworkAdapter>::enc_model(m.typ);
            assert(q1 == b.take(s1));
            assert(Self::enc_model(m) == q1);
            assert(Self::enc_model(m) == b.take(n));
        }
    }
}

#[verifier::ext_equal]
#[derive(Debug, PartialEq, Clone)]
pub struct Ping {
    pub serial: u32,
}

impl NetworkAdapter for Ping {
    type Model = Ping;

    open spec fn model(self) -> Ping {
        self
    }

    open spec fn enc_model(m: Ping) -> Seq<u8> {
        <u32 as NetworkAdapter>::enc_model(m.serial)
    }

    open spec fn valid_model(m: Ping) -> bool {
        <u32 as NetworkAdapter>::valid_model(m.serial)
    }

    closed spec fn dec(b: Seq<u8>) -> Result<(Ping, int), Error> {
        match <u32 as NetworkAdapter>::dec(b) {
            Ok((g1, n1)) => {
                Ok((Ping { serial: g1 }, n1))
            },
            Err(e) => Err(e),
        }
    }

    closed spec fn canon(b: Seq<u8>) -> bool {
        match <u32 as NetworkAdapter>::dec(b) {
            Ok((g1, n1)) => <u32 as NetworkAdapter>::canon(b) && {
                true
            },
            Err(e) => true,
        }
    }

    fn get_be(r: &mut Reader) -> (res: Result<Ping, Error>) {
        let ghost b = old(r).remaining_bytes();
        let save = r.position();
        let x1 = match <u32 as NetworkAdapter>::get_be(r) {
            Ok(v) => v,
            Err(e) => {
                r.seek(save);
                return Err(e);
            },
        };
        proof {
            let (g1, n1) = <u32 as NetworkAdapter>::dec(b)->Ok_0;
        }
        Ok(Ping { serial: x1 })
    }

    fn put_be(self, out: &mut Vec<u8>) -> (res: Result<(), Error>) {
        let ghost m = self.model();
        let Ping { serial } = self;
        let ghost e1 = <u32 as NetworkAdapter>::enc_model(m.serial);
        let ghost p1 = e1;
        let mut tmp: Vec<u8> = Vec::new();
        let ghost o0 = tmp@;
        match serial.put_be(&mut tmp) {
            Ok(()) => {},
            Err(e) => {
                return Err(e);
            },
        };
        let ghost o1 = tmp@;
        proof {
            assert(serial == m.serial);
            assert(o1 == o0 + p1);
        }
        out.append(&mut tmp);
        proof {
            assert(Self::enc_model(m) == p1);
            assert(o0 + p1 =~= p1);
            assert(out@ == old(out)@ + Self::enc_model(m));
        }
        Ok(())
    }

    proof fn lemma_dec_enc(m: Ping, rest: Seq<u8>) {
        let e1 = <u32 as NetworkAdapter>::enc_model(m.serial);
        let p1 = e1;
        assert(Self::enc_model(m) == p1);
        let r1 = rest;
        let b = Self::enc_model(m) + rest;
        assert(b == e1 + r1);
        <u32 as NetworkAdapter>::lemma_dec_enc(m.serial, r1);
        assert(Self::enc_model(m).len() == e1.len());
        assert(Ping { serial: m.serial } =~= m);
    }

    proof fn lemma_enc_dec(b: Seq<u8>, m: Ping, n: int) {
        let (g1, n1) = <u32 as NetworkAdapter>::dec(b)->Ok_0;
        <u32 as NetworkAdapter>::lemma_enc_dec(b, g1, n1);
        assert(n == n1);
        assert(m.serial == g1);
        if Self::canon(b) {
            let s1 = n1;
            let q1 = <u32 as NetworkAdapter>::enc_model(m.serial);
            assert(q1 == b.take(s1));
            assert(Self::enc_model(m) == q1);
            assert(Self::enc_model(m) == b.take(n));
        }
    }
}

#[verifier::ext_equal]
#[derive(Debug, PartialEq, Clone)]
pub struct PlaySound {
    pub owner_id: u32,
    pub sound_id: u8,
}

impl NetworkAdapter for PlaySound {
    type Model = PlaySound;

    open spec fn model(self) -> PlaySound {
        self
    }

    open spec fn enc_model(m: PlaySound) -> Seq<u8> {
        <u32 as NetworkAdapter>::enc_model(m.owner_id) + <u8 as NetworkAdapter>::enc_model(m.sound_id)
    }

    open spec fn valid_model(m: PlaySound) -> bool {
        <u32 as NetworkAdapter>::valid_model(m.owner_id) && <u8 as NetworkAdapter>::valid_model(m.sound_id)
    }

    closed spec fn dec(b: Seq<u8>) -> Result<(PlaySound, int), Error> {
        match <u32 as NetworkAdapter>::dec(b) {
            Ok((g1, n1)) => {
                let b1 = b.skip(n1);
                match <u8 as NetworkAdapter>::dec(b1) {
                    Ok((g2, n2)) => {
                        Ok((PlaySound { owner_id: g1, sound_id: g2 }, n1 + n2))
                    },
                    Err(e) => Err(e),
                }
            },
            Err(e) => Err(e),
        }
    }

    closed spec fn canon(b: Seq<u8>) -> bool {
        match <u32 as NetworkAdapter>::dec(b) {
            Ok((g1, n1)) => <u32 as NetworkAdapter>::canon(b) && {
                let b1 = b.skip(n1);
                match <u8 as NetworkAdapter>::dec(b1) {
                    Ok((g2, n2)) => <u8 as NetworkAdapter>::canon(b1) && {
                        true
                    },
                    Err(e) => true,
                }
            },
            Err(e) => true,
        }
    }

    fn get_be(r: &mut Reader) -> (res: Result<PlaySound, Error>) {
        let ghost b = old(r).remaining_bytes();
        let save = r.position();
        let x1 = match <u32 as NetworkAdapter>::get_be(r) {
            Ok(v) => v,
            Err(e) => {
                r.seek(save);
                return Err(e);
            },
        };
        let x2 = match <u8 as NetworkAdapter>::get_be(r) {
            Ok(v) => v,
            Err(e) => {
                r.seek(save);
                return Err(e);
            },
        };
        proof {
            let (g1, n1) = <u32 as NetworkAdapter>::dec(b)->Ok_0;
            let b1 = b.skip(n1);
            let (g2, n2) = <u8 as NetworkAdapter>::dec(b1)->Ok_0;
            lemma_skip_skip(b, n1, n2);
            assert(b1.skip(n2) == b.skip(n1 + n2));
        }
        Ok(PlaySound { owner_id: x1, sound_id: x2 })
    }

    fn put_be(self, out: &mut Vec<u8>) -> (res: Result<(), Error>) {
        let ghost m = self.model();
        let PlaySound { owner_id, sound_id } = self;
        let ghost e1 = <u32 as NetworkAdapter>::enc_model(m.owner_id);
        let ghost e2 = <u8 as NetworkAdapter>::enc_model(m.sound_id);
        let ghost p1 = e1;
        let ghost p2 = p1 + e2;
        let mut tmp: Vec<u8> = Vec::new();
        let ghost o0 = tmp@;
        match owner_id.put_be(&mut tmp) {
            Ok(()) => {},
            Err(e) => {
                return Err(e);
            },
        };
        let ghost o1 = tmp@;
        proof {
            assert(owner_id == m.owner_id);
            assert(o1 == o0 + p1);
        }
        match sound_id.put_be(&mut tmp) {
            Ok(()) => {},
            Err(e) => {
                return Err(e);
            },
        };
        let ghost o2 = tmp@;
        proof {
            assert(sound_id == m.sound_id);
            lemma_seq_assoc(o0, p1, e2);
            assert(o2 == o0 + p2);
        }
        out.append(&mut tmp);
        proof {
            assert(Self::enc_model(m) == p2);
            assert(o0 + p2 =~= p2);
            assert(out@ == old(out)@ + Self::enc_model(m));
        }
        Ok(())
    }

    proof fn lemma_dec_enc(m: PlaySound, rest: Seq<u8>) {
        let e1 = <u32 as NetworkAdapter>::enc_model(m.owner_id);
        let e2 = <u8 as NetworkAdapter>::enc_model(m.sound_id);
        let p1 = e1;
        let p2 = p1 + e2;
        assert(Self::enc_model(m) == p2);
        let r2 = rest;
        let r1 = e2 + r2;
        let b = Self::enc_model(m) + rest;
        lemma_seq_assoc(p1, e2, r2);
        assert(p2 + r2 == p1 + r1);
        assert(b == e1 + r1);
        <u32 as NetworkAdapter>::lemma_dec_enc(m.owner_id, r1);
        <u8 as NetworkAdapter>::lemma_dec_enc(m.sound_id, r2);
        let c1 = b.skip(e1.len() as int);
        lemma_skip_concat(e1, r1);
        assert(c1 == r1);
        assert(Self::enc_model(m).len() == e1.len() + e2.len());
        assert(PlaySound { owner_id: m.owner_id, sound_id: m.sound_id } =~= m);
    }

    proof fn lemma_enc_dec(b: Seq<u8>, m: PlaySound, n: int) {
        let (g1, n1) = <u32 as NetworkAdapter>::dec(b)->Ok_0;
        <u32 as NetworkAdapter>::lemma_enc_dec(b, g1, n1);
        let b1 = b.skip(n1);
        let (g2, n2) = <u8 as NetworkAdapter>::dec(b1)->Ok_0;
        <u8 as NetworkAdapter>::lemma_enc_dec(b1, g2, n2);
        assert(n == n1 + n2);
        assert(m.owner_id == g1);
        assert(m.sound_id == g2);
        if Self::canon(b) {
            let s1 = n1;
            let s2 = s1 + n2;
            let q1 = <u32 as NetworkAdapter>::enc_model(m.owner_id);
            assert(q1 == b.take(s1));
            lemma_take_concat(b, s1, n2);
            let q2 = q1 + <u8 as NetworkAdapter>::enc_model(m.sound_id);
            assert(q2 == b.take(s2));
            assert(Self::enc_model(m) == q2);
            assert(Self::enc_model(m) == b.take(n));
        }
    }
}

#[verifier::ext_equal]
#[derive(Debug, PartialEq, Clone)]
pub struct QuestObjId {
    pub object_id: u32,
}

impl NetworkAdapter for QuestObjId {
    type Model = QuestObjId;

    open spec fn model(self) -> QuestObjId {
        self
    }

    open spec fn enc_model(m: QuestObjId) -> Seq<u8> {
        <u32 as NetworkAdapter>::enc_model(m.object_id)
    }

    open spec fn valid_model(m: QuestObjId) -> bool {
        <u32 as NetworkAdapter>::valid_model(m.object_id)
    }

    closed spec fn dec(b: Seq<u8>) -> Result<(QuestObjId, int), Error> {
        match <u32 as NetworkAdapter>::dec(b) {
            Ok((g1, n1)) => {
                Ok((QuestObjId { object_id: g1 }, n1))
            },
            Err(e) => Err(e),
        }
    }

    closed spec fn canon(b: Seq<u8>) -> bool {
        match <u32 as NetworkAdapter>::dec(b) {
            Ok((g1, n1)) => <u32 as NetworkAdapter>::canon(b) && {
                true
            },
            Err(e) => true,
        }
    }

    fn get_be(r: &mut Reader) -> (res: Result<QuestObjId, Error>) {
        let ghost b = old(r).remaining_bytes();
        let save = r.position();
        let x1 = match <u32 as NetworkAdapter>::get_be(r) {
            Ok(v) => v,
            Err(e) => {
                r.seek(save);
                return Err(e);
            },
        };
        proof {
            let (g1, n1) = <u32 as NetworkAdapter>::dec(b)->Ok_0;
        }
        Ok(QuestObjId { object_id: x1 })
    }

    fn put_be(self, out: &mut Vec<u8>) -> (res: Result<(), Error>) {
        let ghost m = self.model();
        let QuestObjId { object_id } = self;
        let ghost e1 = <u32 as NetworkAdapter>::enc_model(m.object_id);
        let ghost p1 = e1;
        let mut tmp: Vec<u8> = Vec::new();
        let ghost o0 = tmp@;
        match object_id.put_be(&mut tmp) {
            Ok(()) => {},
            Err(e) => {
                return Err(e);
            },
        };
        let ghost o1 = tmp@;
        proof {
            assert(object_id == m.object_id);
            assert(o1 == o0 + p1);
        }
        out.append(&mut tmp);
        proof {
            assert(Self::enc_model(m) == p1);
            assert(o0 + p1 =~= p1);
            assert(out@ == old(out)@ + Self::enc_model(m));
        }
        Ok(())
    }

    proof fn lemma_dec_enc(m: QuestObjId, rest: Seq<u8>) {
        let e1 = <u32 as NetworkAdapter>::enc_model(m.object_id);
        let p1 = e1;
        assert(Self::enc_model(m) == p1);
        let r1 = rest;
        let b = Self::enc_model(m) + rest;
        assert(b == e1 + r1);
        <u32 as NetworkAdapter>::lemma_dec_enc(m.object_id, r1);
        assert(Self::enc_model(m).len() == e1.len());
        assert(QuestObjId { object_id: m.object_id } =~= m);
    }

    proof fn lemma_enc_dec(b: Seq<u8>, m: QuestObjId, n: int) {
        let (g1, n1) = <u32 as NetworkAdapter>::dec(b)->Ok_0;
        <u32 as NetworkAdapter>::lemma_enc_dec(b, g1, n1);
        assert(n == n1);
        assert(m.object_id == g1);
        if Self::canon(b) {
            let s1 = n1;
            let q1 = <u32 as NetworkAdapter>::enc_model(m.object_id);
            assert(q1 == b.take(s1));
            assert(Self::enc_model(m) == q1);
            assert(Self::enc_model(m) == b.take(n));
        }
    }
}

#[verifier::ext_equal]
#[derive(Debug, PartialEq, Clone)]
pub struct QuestFetchResponse {
    pub quests: RLE<Vec<QuestData>, u16>,
    pub next_refresh_price: u32,
}

/// The mathematical model of a decoded `QuestFetchResponse`.
#[verifier::ext_equal]
pub struct QuestFetchResponseModel {
    pub quests: Seq<QuestDataModel>,
    pub next_refresh_price: u32,
}

impl NetworkAdapter for QuestFetchResponse {
    type Model = QuestFetchResponseModel;

    open spec fn model(self) -> QuestFetchResponseModel {
        QuestFetchResponseModel {
            quests: self.quests.model(),
            next_refresh_price: self.next_refresh_price.model(),
        }
    }

    open spec fn enc_model(m: QuestFetchResponseModel) -> Seq<u8> {
        <RLE<Vec<QuestData>, u16> as NetworkAdapter>::enc_model(m.quests) + <u32 as NetworkAdapter>::enc_model(m.next_refresh_price)
    }

    open spec fn valid_model(m: QuestFetchResponseModel) -> bool {
        <RLE<Vec<QuestData>, u16> as NetworkAdapter>::valid_model(m.quests) && <u32 as NetworkAdapter>::valid_model(m.next_refresh_price)
    }

    closed spec fn dec(b: Seq<u8>) -> Result<(QuestFetchResponseModel, int), Error> {
        match <RLE<Vec<QuestData>, u16> as NetworkAdapter>::dec(b) {
            Ok((g1, n1)) => {
                let b1 = b.skip(n1);
                match <u32 as NetworkAdapter>::dec(b1) {
                    Ok((g2, n2)) => {
                        Ok((QuestFetchResponseModel { quests: g1, next_refresh_price: g2 }, n1 + n2))
                    },
                    Err(e) => Err(e),
                }
            },
            Err(e) => Err(e),
        }
    }

    closed spec fn canon(b: Seq<u8>) -> bool {
        match <RLE<Vec<QuestData>, u16> as NetworkAdapter>::dec(b) {
            Ok((g1, n1)) => <RLE<Vec<QuestData>, u16> as NetworkAdapter>::canon(b) && {
                let b1 = b.skip(n1);
                match <u32 as NetworkAdapter>::dec(b1) {
                    Ok((g2, n2)) => <u32 as NetworkAdapter>::canon(b1) && {
                        true
                    },
                    Err(e) => true,
                }
            },
            Err(e) => true,
        }
    }

    fn get_be(r: &mut Reader) -> (res: Result<QuestFetchResponse, Error>) {
        let ghost b = old(r).remaining_bytes();
        let save = r.position();
        let x1 = match <RLE<Vec<QuestData>, u16> as NetworkAdapter>::get_be(r) {
            Ok(v) => v,
            Err(e) => {
                r.seek(save);
                return Err(e);
            },
        };
        let x2 = match <u32 as NetworkAdapter>::get_be(r) {
            Ok(v) => v,
            Err(e) => {
                r.seek(save);
                return Err(e);
            },
        };
        proof {
            let (g1, n1) = <RLE<Vec<QuestData>, u16> as NetworkAdapter>::dec(b)->Ok_0;
            let b1 = b.skip(n1);
            let (g2, n2) = <u32 as NetworkAdapter>::dec(b1)->Ok_0;
            lemma_skip_skip(b, n1, n2);
            assert(b1.skip(n2) == b.skip(n1 + n2));
        }
        Ok(QuestFetchResponse { quests: x1, next_refresh_price: x2 })
    }

    fn put_be(self, out: &mut Vec<u8>) -> (res: Result<(), Error>) {
        let ghost m = self.model();
        let QuestFetchResponse { quests, next_refresh_price } = self;
        let ghost e1 = <RLE<Vec<QuestData>, u16> as NetworkAdapter>::enc_model(m.quests);
        let ghost e2 = <u32 as NetworkAdapter>::enc_model(m.next_refresh_price);
        let ghost p1 = e1;
        let ghost p2 = p1 + e2;
        let mut tmp: Vec<u8> = Vec::new();
        let ghost o0 = tmp@;
        match quests.put_be(&mut tmp) {
            Ok(()) => {},
            Err(e) => {
                return Err(e);
            },
        };
        let ghost o1 = tmp@;
        proof {
            assert(quests.model() == m.quests);
            assert(o1 == o0 + p1);
        }
        match next_refresh_price.put_be(&mut tmp) {
            Ok(()) => {},
            Err(e) => {
                return Err(e);
            },
        };
        let ghost o2 = tmp@;
        proof {
            assert(next_refresh_price.model() == m.next_refresh_price);
            lemma_seq_assoc(o0, p1, e2);
            assert(o2 == o0 + p2);
        }
        out.append(&mut tmp);
        proof {
            assert(Self::enc_model(m) == p2);
            assert(o0 + p2 =~= p2);
            assert(out@ == old(out)@ + Self::enc_model(m));
        }
        Ok(())
    }

    proof fn lemma_dec_enc(m: QuestFetchResponseModel, rest: Seq<u8>) {
        let e1 = <RLE<Vec<QuestData>, u16> as NetworkAdapter>::enc_model(m.quests);
        let e2 = <u32 as NetworkAdapter>::enc_model(m.next_refresh_price);
        let p1 = e1;
        let p2 = p1 + e2;
        assert(Self::enc_model(m) == p2);
        let r2 = rest;
        let r1 = e2 + r2;
        let b = Self::enc_model(m) + rest;
        lemma_seq_assoc(p1, e2, r2);
        assert(p2 + r2 == p1 + r1);
        assert(b == e1 + r1);
        <RLE<Vec<QuestData>, u16> as NetworkAdapter>::lemma_dec_enc(m.quests, r1);
        <u32 as NetworkAdapter>::lemma_dec_enc(m.next_refresh_price, r2);
        let c1 = b.skip(e1.len() as int);
        lemma_skip_concat(e1, r1);
        assert(c1 == r1);
        assert(Self::enc_model(m).len() == e1.len() + e2.len());
        assert(QuestFetchResponseModel { quests: m.quests, next_refresh_price: m.next_refresh_price } =~= m);
    }

    proof fn lemma_enc_dec(b: Seq<u8>, m: QuestFetchResponseModel, n: int) {
        let (g1, n1) = <RLE<Vec<QuestData>, u16> as NetworkAdapter>::dec(b)->Ok_0;
        <RLE<Vec<QuestData>, u16> as NetworkAdapter>::lemma_enc_dec(b, g1, n1);
        let b1 = b.skip(n1);
        let (g2, n2) = <u32 as NetworkAdapter>::dec(b1)->Ok_0;
        <u32 as NetworkAdapter>::lemma_enc_dec(b1, g2, n2);
        assert(n == n1 + n2);
        assert(m.quests == g1);
        assert(m.next_refresh_price == g2);
        if Self::canon(b) {
            let s1 = n1;
            let s2 = s1 + n2;
            let q1 = <RLE<Vec<QuestData>, u16> as NetworkAdapter>::enc_model(m.quests);
            assert(q1 == b.take(s1));
            lemma_take_concat(b, s1, n2);
            let q2 = q1 + <u32 as NetworkAdapter>::enc_model(m.next_refresh_price);
            assert(q2 == b.take(s2));
            assert(Self::enc_model(m) == q2);
            assert(Self::enc_model(m) == b.take(n));
        }
    }
}

#[verifier::ext_equal]
#[derive(Debug, PartialEq, Clone)]
pub struct QuestRedeemResponse {
    pub ok: bool,
    pub message: RLE<String, u16>,
}

/// The mathematical model of a decoded `QuestRedeemResponse`.
#[verifier::ext_equal]
pub struct QuestRedeemResponseModel {
    pub ok: bool,
    pub message: Seq<char>,
}

impl NetworkAdapter for QuestRedeemResponse {
    type Model = QuestRedeemResponseModel;

    open spec fn model(self) -> QuestRedeemResponseModel {
        QuestRedeemResponseModel {
            ok: self.ok.model(),
            message: self.message.model(),
        }
    }

    open spec fn enc_model(m: QuestRedeemResponseModel) -> Seq<u8> {
        <bool as NetworkAdapter>::enc_model(m.ok) + <RLE<String, u16> as NetworkAdapter>::enc_model(m.message)
    }

    open spec fn valid_model(m: QuestRedeemResponseModel) -> bool {
        <bool as NetworkAdapter>::valid_model(m.ok) && <RLE<String, u16> as NetworkAdapter>::valid_model(m.message)
    }

    closed spec fn dec(b: Seq<u8>) -> Result<(QuestRedeemResponseModel, int), Error> {
        match <bool as NetworkAdapter>::dec(b) {
            Ok((g1, n1)) => {
                let b1 = b.skip(n1);
                match <RLE<String, u16> as NetworkAdapter>::dec(b1) {
                    Ok((g2, n2)) => {
                        Ok((QuestRedeemResponseModel { ok: g1, message: g2 }, n1 + n2))
                    },
                    Err(e) => Err(e),
                }
            },
            Err(e) => Err(e),
        }
    }

    closed spec fn canon(b: Seq<u8>) -> bool {
        match <bool as NetworkAdapter>::dec(b) {
            Ok((g1, n1)) => <bool as NetworkAdapter>::canon(b) && {
                let b1 = b.skip(n1);
                match <RLE<String, u16> as NetworkAdapter>::dec(b1) {
                    Ok((g2, n2)) => <RLE<String, u16> as NetworkAdapter>::canon(b1) && {
                        true
                    },
                    Err(e) => true,
                }
            },
            Err(e) => true,
        }
    }

    fn get_be(r: &mut Reader) -> (res: Result<QuestRedeemResponse, Error>) {
        let ghost b = old(r).remaining_bytes();
        let save = r.position();
        let x1 = match <bool as NetworkAdapter>::get_be(r) {
            Ok(v) => v,
            Err(e) => {
                r.seek(save);
                return Err(e);
            },
        };
        let x2 = match <RLE<String, u16> as NetworkAdapter>::get_be(r) {
            Ok(v) => v,
            Err(e) => {
                r.seek(save);
                return Err(e);
            },
        };
        proof {
            let (g1, n1) = <bool as NetworkAdapter>::dec(b)->Ok_0;
            let b1 = b.skip(n1);
            let (g2, n2) = <RLE<String, u16> as NetworkAdapter>::dec(b1)->Ok_0;
            lemma_skip_skip(b, n1, n2);
            assert(b1.skip(n2) == b.skip(n1 + n2));
        }
        Ok(QuestRedeemResponse { ok: x1, message: x2 })
    }

    fn put_be(self, out: &mut Vec<u8>) -> (res: Result<(), Error>) {
        let ghost m = self.model();
        let QuestRedeemResponse { ok, message } = self;
        let ghost e1 = <bool as NetworkAdapter>::enc_model(m.ok);
        let ghost e2 = <RLE<String, u16> as NetworkAdapter>::enc_model(m.message);
        let ghost p1 = e1;
        let ghost p2 = p1 + e2;
        let mut tmp: Vec<u8> = Vec::new();
        let ghost o0 = tmp@;
        match ok.put_be(&mut tmp) {
            Ok(()) => {},
            Err(e) => {
                return Err(e);
            },
        };
        let ghost o1 = tmp@;
        proof {
            assert(ok.model() == m.ok);
            assert(o1 == o0 + p1);
        }
        match message.put_be(&mut tmp) {
            Ok(()) => {},
            Err(e) => {
                return Err(e);
            },
        };
        let ghost o2 = tmp@;
        proof {
            assert(message.model() == m.message);
            lemma_seq_assoc(o0, p1, e2);
            assert(o2 == o0 + p2);
        }
        out.append(&mut tmp);
        proof {
            assert(Self::enc_model(m) == p2);
            assert(o0 + p2 =~= p2);
            assert(out@ == old(out)@ + Self::enc_model(m));
        }
        Ok(())
    }

    proof fn lemma_dec_enc(m: QuestRedeemResponseModel, rest: Seq<u8>) {
        let e1 = <bool as NetworkAdapter>::enc_model(m.ok);
        let e2 = <RLE<String, u16> as NetworkAdapter>::enc_model(m.message);
        let p1 = e1;
        let p2 = p1 + e2;
        assert(Self::enc_model(m) == p2);
        let r2 = rest;
        let r1 = e2 + r2;
        let b = Self::enc_model(m) + rest;
        lemma_seq_assoc(p1, e2, r2);
        assert(p2 + r2 == p1 + r1);
        assert(b == e1 + r1);
        <bool as NetworkAdapter>::lemma_dec_enc(m.ok, r1);
        <RLE<String, u16> as NetworkAdapter>::lemma_dec_enc(m.message, r2);
        let c1 = b.skip(e1.len() as int);
        lemma_skip_concat(e1, r1);
        assert(c1 == r1);
        assert(Self::enc_model(m).len() == e1.len() + e2.len());
        assert(QuestRedeemResponseModel { ok: m.ok, message: m.message } =~= m);
    }

    proof fn lemma_enc_dec(b: Seq<u8>, m: QuestRedeemResponseModel, n: int) {
        let (g1, n1) = <bool as NetworkAdapter>::dec(b)->Ok_0;
        <bool as NetworkAdapter>::lemma_enc_dec(b, g1, n1);
        let b1 = b.skip(n1);
        let (g2, n2) = <RLE<String, u16> as NetworkAdapter>::dec(b1)->Ok_0;
        <RLE<String, u16> as NetworkAdapter>::lemma_enc_dec(b1, g2, n2);
        assert(n == n1 + n2);
        assert(m.ok == g1);
        assert(m.message == g2);
        if Self::canon(b) {
            let s1 = n1;
            let s2 = s1 + n2;
            let q1 = <bool as NetworkAdapter>::enc_model(m.ok);
            assert(q1 == b.take(s1));
            lemma_take_concat(b, s1, n2);
            let q2 = q1 + <RLE<String, u16> as NetworkAdapter>::enc_model(m.message);
            assert(q2 == b.take(s2));
            assert(Self::enc_model(m) == q2);
            assert(Self::enc_model(m) == b.take(n));
        }
    }
}

#[verifier::ext_equal]
#[derive(Debug, PartialEq, Clone)]
pub struct RealmHeroLeftMsg {
    pub number_of_realm_heroes: u32,
}

impl NetworkAdapter for RealmHeroLeftMsg {
    type Model = RealmHeroLeftMsg;

    open spec fn model(self) -> RealmHeroLeftMsg {
        self
    }

    open spec fn enc_model(m: RealmHeroLeftMsg) -> Seq<u8> {
        <u32 as NetworkAdapter>::enc_model(m.number_of_realm_heroes)
    }

    open spec fn valid_model(m: RealmHeroLeftMsg) -> bool {
        <u32 as NetworkAdapter>::valid_model(m.number_of_realm_heroes)
    }

    closed spec fn dec(b: Seq<u8>) -> Result<(RealmHeroLeftMsg, int), Error> {
        match <u32 as NetworkAdapter>::dec(b) {
            Ok((g1, n1)) => {
                Ok((RealmHeroLeftMsg { number_of_realm_heroes: g1 }, n1))
            },
            Err(e) => Err(e),
        }
    }

    closed spec fn canon(b: Seq<u8>) -> bool {
        match <u32 as NetworkAdapter>::dec(b) {
            Ok((g1, n1)) => <u32 as NetworkAdapter>::canon(b) && {
                true
            },
            Err(e) => true,
        }
    }

    fn get_be(r: &mut Reader) -> (res: Result<RealmHeroLeftMsg, Error>) {
        let ghost b = old(r).remaining_bytes();
        let save = r.position();
        let x1 = match <u32 as NetworkAdapter>::get_be(r) {
            Ok(v) => v,
            Err(e) => {
                r.seek(save);
                return Err(e);
            },
        };
        proof {
            let (g1, n1) = <u32 as NetworkAdapter>::dec(b)->Ok_0;
        }
        Ok(RealmHeroLeftMsg { number_of_realm_heroes: x1 })
    }

    fn put_be(self, out: &mut Vec<u8>) -> (res: Result<(), Error>) {
        let ghost m = self.model();
        let RealmHeroLeftMsg { number_of_realm_heroes } = self;
        let ghost e1 = <u32 as NetworkAdapter>::enc_model(m.number_of_realm_heroes);
        let ghost p1 = e1;
        let mut tmp: Vec<u8> = Vec::new();
        let ghost o0 = tmp@;
        match number_of_realm_heroes.put_be(&mut tmp) {
            Ok(()) => {},
            Err(e) => {
                return Err(e);
            },
        };
        let ghost o1 = tmp@;
        proof {
            assert(number_of_realm_heroes == m.number_of_realm_heroes);
            assert(o1 == o0 + p1);
        }
        out.append(&mut tmp);
        proof {
            assert(Self::enc_model(m) == p1);
            assert(o0 + p1 =~= p1);
            assert(out@ == old(out)@ + Self::enc_model(m));
        }
        Ok(())
    }

    proof fn lemma_dec_enc(m: RealmHeroLeftMsg, rest: Seq<u8>) {
        let e1 = <u32 as NetworkAdapter>::enc_model(m.number_of_realm_heroes);
        let p1 = e1;
        assert(Self::enc_model(m) == p1);
        let r1 = rest;
        let b = Self::enc_model(m) + rest;
        assert(b == e1 + r1);
        <u32 as NetworkAdapter>::lemma_dec_enc(m.number_of_realm_heroes, r1);
        assert(Self::enc_model(m).len() == e1.len());
        assert(RealmHeroLeftMsg { number_of_realm_heroes: m.number_of_realm_heroes } =~= m);
    }

    proof fn lemma_enc_dec(b: Seq<u8>, m: RealmHeroLeftMsg, n: int) {
        let (g1, n1) = <u32 as NetworkAdapter>::dec(b)->Ok_0;
        <u32 as NetworkAdapter>::lemma_enc_dec(b, g1, n1);
        assert(n == n1);
        assert(m.number_of_realm_heroes == g1);
        if Self::canon(b) {
            let s1 = n1;
            let q1 = <u32 as NetworkAdapter>::enc_model(m.number_of_realm_heroes);
            assert(q1 == b.take(s1));
            assert(Self::enc_model(m) == q1);
            assert(Self::enc_model(m) == b.take(n));
        }
    }
}

#[verifier::ext_equal]
#[derive(Debug, PartialEq, Clone)]
pub struct Reconnect {
    pub name: RLE<String, u16>,
    pub host: RLE<String, u16>,
    pub stats: RLE<String, u16>,
    pub port: u32,
    pub game_id: u32,
    pub key_time: u32,
    pub is_from_arena: bool,
    pub key: RLE<Vec<u8>, u16>,
}

/// The mathematical model of a decoded `Reconnect`.
#[verifier::ext_equal]
pub struct ReconnectModel {
    pub name: Seq<char>,
    pub host: Seq<char>,
    pub stats: Seq<char>,
    pub port: u32,
    pub game_id: u32,
    pub key_time: u32,
    pub is_from_arena: bool,
    pub key: Seq<u8>,
}

impl NetworkAdapter for Reconnect {
    type Model = ReconnectModel;

    open spec fn model(self) -> ReconnectModel {
        ReconnectModel {
            name: self.name.model(),
            host: self.host.model(),
            stats: self.stats.model(),
            port: self.port.model(),
            game_id: self.game_id.model(),
            key_time: self.key_time.model(),
            is_from_arena: self.is_from_arena.model(),
            key: self.key.model(),
        }
    }

    open spec fn enc_model(m: ReconnectModel) -> Seq<u8> {
        <RLE<String, u16> as NetworkAdapter>::enc_model(m.name) + <RLE<String, u16> as NetworkAdapter>::enc_model(m.host) + <RLE<String, u16> as NetworkAdapter>::enc_model(m.stats) + <u32 as NetworkAdapter>::enc_model(m.port) + <u32 as NetworkAdapter>::enc_model(m.game_id) + <u32 as NetworkAdapter>::enc_model(m.key_time) + <bool as NetworkAdapter>::enc_model(m.is_from_arena) + <RLE<Vec<u8>, u16> as NetworkAdapter>::enc_model(m.key)
    }

    open spec fn valid_model(m: ReconnectModel) -> bool {
        <RLE<String, u16> as NetworkAdapter>::valid_model(m.name) && <RLE<String, u16> as NetworkAdapter>::valid_model(m.host) && <RLE<String, u16> as NetworkAdapter>::valid_model(m.stats) && <u32 as NetworkAdapter>::valid_model(m.port) && <u32 as NetworkAdapter>::valid_model(m.game_id) && <u32 as NetworkAdapter>::valid_model(m.key_time) && <bool as NetworkAdapter>::valid_model(m.is_from_arena) && <RLE<Vec<u8>, u16> as NetworkAdapter>::valid_model(m.key)
    }

    closed spec fn dec(b: Seq<u8>) -> Result<(ReconnectModel, int), Error> {
        match <RLE<String, u16> as NetworkAdapter>::dec(b) {
            Ok((g1, n1)) => {
                let b1 = b.skip(n1);
                match <RLE<String, u16> as NetworkAdapter>::dec(b1) {
                    Ok((g2, n2)) => {
                        let b2 = b1.skip(n2);
                        match <RLE<String, u16> as NetworkAdapter>::dec(b2) {
                            Ok((g3, n3)) => {
                                let b3 = b2.skip(n3);
                                match <u32 as NetworkAdapter>::dec(b3) {
                                    Ok((g4, n4)) => {
                                        let b4 = b3.skip(n4);
                                        match <u32 as NetworkAdapter>::dec(b4) {
                                            Ok((g5, n5)) => {
                                                let b5 = b4.skip(n5);
                                                match <u32 as NetworkAdapter>::dec(b5) {
                                                    Ok((g6, n6)) => {
                                                        let b6 = b5.skip(n6);
                                                        match <bool as NetworkAdapter>::dec(b6) {
                                                            Ok((g7, n7)) => {
                                                                let b7 = b6.skip(n7);
                                                                match <RLE<Vec<u8>, u16> as NetworkAdapter>::dec(b7) {
                                                                    Ok((g8, n8)) => {
                                                                        Ok((ReconnectModel { name: g1, host: g2, stats: g3, port: g4, game_id: g5, key_time: g6, is_from_arena: g7, key: g8 }, n1 + n2 + n3 + n4 + n5 + n6 + n7 + n8))
                                                                    },
                                                                    Err(e) => Err(e),
                                                                }
                                                            },
                                                            Err(e) => Err(e),
                                                        }
                                                    },
                                                    Err(e) => Err(e),
                                                }
                                            },
                                            Err(e) => Err(e),
                                        }
                                    },
                                    Err(e) => Err(e),
                                }
                            },
                            Err(e) => Err(e),
                        }
                    },
                    Err(e) => Err(e),
                }
            },
            Err(e) => Err(e),
        }
    }

    closed spec fn canon(b: Seq<u8>) -> bool {
        match <RLE<String, u16> as NetworkAdapter>::dec(b) {
            Ok((g1, n1)) => <RLE<String, u16> as NetworkAdapter>::canon(b) && {
                let b1 = b.skip(n1);
                match <RLE<String, u16> as NetworkAdapter>::dec(b1) {
                    Ok((g2, n2)) => <RLE<String, u16> as NetworkAdapter>::canon(b1) && {
                        let b2 = b1.skip(n2);
                        match <RLE<String, u16> as NetworkAdapter>::dec(b2) {
                            Ok((g3, n3)) => <RLE<String, u16> as NetworkAdapter>::canon(b2) && {
                                let b3 = b2.skip(n3);
                                match <u32 as NetworkAdapter>::dec(b3) {
                                    Ok((g4, n4)) => <u32 as NetworkAdapter>::canon(b3) && {
                                        let b4 = b3.skip(n4);
                                        match <u32 as NetworkAdapter>::dec(b4) {
                                            Ok((g5, n5)) => <u32 as NetworkAdapter>::canon(b4) && {
                                                let b5 = b4.skip(n5);
                                                match <u32 as NetworkAdapter>::dec(b5) {
                                                    Ok((g6, n6)) => <u32 as NetworkAdapter>::canon(b5) && {
                                                        let b6 = b5.skip(n6);
                                                        match <bool as NetworkAdapter>::dec(b6) {
                                                            Ok((g7, n7)) => <bool as NetworkAdapter>::canon(b6) && {
                                                                let b7 = b6.skip(n7);
                                                                match <RLE<Vec<u8>, u16> as NetworkAdapter>::dec(b7) {
                                                                    Ok((g8, n8)) => <RLE<Vec<u8>, u16> as NetworkAdapter>::canon(b7) && {
                                                                        true
                                                                    },
                                                                    Err(e) => true,
                                                                }
                                                            },
                                                            Err(e) => true,
                                                        }
                                                    },
                                                    Err(e) => true,
                                                }
                                            },
                                            Err(e) => true,
                                        }
                                    },
                                    Err(e) => true,
                                }
                            },
                            Err(e) => true,
                        }
                    },
                    Err(e) => true,
                }
            },
            Err(e) => true,
        }
    }

    #[verifier::rlimit(100)]
    #[verifier::spinoff_prover]
    fn get_be(r: &mut Reader) -> (res: Result<Reconnect, Error>) {
        let ghost b = old(r).remaining_bytes();
        let save = r.position();
        let x1 = match <RLE<String, u16> as NetworkAdapter>::get_be(r) {
            Ok(v) => v,
            Err(e) => {
                r.seek(save);
                return Err(e);
            },
        };
        let x2 = match <RLE<String, u16> as NetworkAdapter>::get_be(r) {
            Ok(v) => v,
            Err(e) => {
                r.seek(save);
                return Err(e);
            },
        };
        let x3 = match <RLE<String, u16> as NetworkAdapter>::get_be(r) {
            Ok(v) => v,
            Err(e) => {
                r.seek(save);
                return Err(e);
            },
        };
        let x4 = match <u32 as NetworkAdapter>::get_be(r) {
            Ok(v) => v,
            Err(e) => {
                r.seek(save);
                return Err(e);
            },
        };
        let x5 = match <u32 as NetworkAdapter>::get_be(r) {
            Ok(v) => v,
            Err(e) => {
                r.seek(save);
                return Err(e);
            },
        };
        let x6 = match <u32 as NetworkAdapter>::get_be(r) {
            Ok(v) => v,
            Err(e) => {
                r.seek(save);
                return Err(e);
            },
        };
        let x7 = match <bool as NetworkAdapter>::get_be(r) {
            Ok(v) => v,
            Err(e) => {
                r.seek(save);
                return Err(e);
            },
        };
        let x8 = match <RLE<Vec<u8>, u16> as NetworkAdapter>::get_be(r) {
            Ok(v) => v,
            Err(e) => {
                r.seek(save);
                return Err(e);
            },
        };
        proof {
            let (g1, n1) = <RLE<String, u16> as NetworkAdapter>::dec(b)->Ok_0;
            let b1 = b.skip(n1);
            let (g2, n2) = <RLE<String, u16> as NetworkAdapter>::dec(b1)->Ok_0;
            let b2 = b1.skip(n2);
            let (g3, n3) = <RLE<String, u16> as NetworkAdapter>::dec(b2)->Ok_0;
            let b3 = b2.skip(n3);
            let (g4, n4) = <u32 as NetworkAdapter>::dec(b3)->Ok_0;
            let b4 = b3.skip(n4);
            let (g5, n5) = <u32 as NetworkAdapter>::dec(b4)->Ok_0;
            let b5 = b4.skip(n5);
            let (g6, n6) = <u32 as NetworkAdapter>::dec(b5)->Ok_0;
            let b6 = b5.skip(n6);
            let (g7, n7) = <bool as NetworkAdapter>::dec(b6)->Ok_0;
            let b7 = b6.skip(n7);
            let (g8, n8) = <RLE<Vec<u8>, u16> as NetworkAdapter>::dec(b7)->Ok_0;
            lemma_skip_skip(b, n1, n2);
            assert(b2 == b.skip(n1 + n2));
            lemma_skip_skip(b, n1 + n2, n3);
            assert(b3 == b.skip(n1 + n2 + n3));
            lemma_skip_skip(b, n1 + n2 + n3, n4);
            assert(b4 == b.skip(n1 + n2 + n3 + n4));
            lemma_skip_skip(b, n1 + n2 + n3 + n4, n5);
            assert(b5 == b.skip(n1 + n2 + n3 + n4 + n5));
            lemma_skip_skip(b, n1 + n2 + n3 + n4 + n5, n6);
            assert(b6 == b.skip(n1 + n2 + n3 + n4 + n5 + n6));
            lemma_skip_skip(b, n1 + n2 + n3 + n4 + n5 + n6, n7);
            assert(b7 == b.skip(n1 + n2 + n3 + n4 + n5 + n6 + n7));
            lemma_skip_skip(b, n1 + n2 + n3 + n4 + n5 + n6 + n7, n8);
            assert(b7.skip(n8) == b.skip(n1 + n2 + n3 + n4 + n5 + n6 + n7 + n8));
        }
        Ok(Reconnect { name: x1, host: x2, stats: x3, port: x4, game_id: x5, key_time: x6, is_from_arena: x7, key: x8 })
    }

    #[verifier::rlimit(100)]
    #[verifier::spinoff_prover]
    fn put_be(self, out: &mut Vec<u8>) -> (res: Result<(), Error>) {
        let ghost m = self.model();
        let Reconnect { name, host, stats, port, game_id, key_time, is_from_arena, key } = self;
        let ghost e1 = <RLE<String, u16> as NetworkAdapter>::enc_model(m.name);
        let ghost e2 = <RLE<String, u16> as NetworkAdapter>::enc_model(m.host);
        let ghost e3 = <RLE<String, u16> as NetworkAdapter>::enc_model(m.stats);
        let ghost e4 = <u32 as NetworkAdapter>::enc_model(m.port);
        let ghost e5 = <u32 as NetworkAdapter>::enc_model(m.game_id);
        let ghost e6 = <u32 as NetworkAdapter>::enc_model(m.key_time);
        let ghost e7 = <bool as NetworkAdapter>::enc_model(m.is_from_arena);
        let ghost e8 = <RLE<Vec<u8>, u16> as NetworkAdapter>::enc_model(m.key);
        let ghost p1 = e1;
        let ghost p2 = p1 + e2;
        let ghost p3 = p2 + e3;
        let ghost p4 = p3 + e4;
        let ghost p5 = p4 + e5;
        let ghost p6 = p5 + e6;
        let ghost p7 = p6 + e7;
        let ghost p8 = p7 + e8;
        let mut tmp: Vec<u8> = Vec::new();
        let ghost o0 = tmp@;
        match name.put_be(&mut tmp) {
            Ok(()) => {},
            Err(e) => {
                return Err(e);
            },
        };
        let ghost o1 = tmp@;
        proof {
            assert(name.model() == m.name);
            assert(o1 == o0 + p1);
        }
        match host.put_be(&mut tmp) {
            Ok(()) => {},
            Err(e) => {
                return Err(e);
            },
        };
        let ghost o2 = tmp@;
        proof {
            assert(host.model() == m.host);
            lemma_seq_assoc(o0, p1, e2);
            assert(o2 == o0 + p2);
        }
        match stats.put_be(&mut tmp) {
            Ok(()) => {},
            Err(e) => {
                return Err(e);
            },
        };
        let ghost o3 = tmp@;
        proof {
            assert(stats.model() == m.stats);
            lemma_seq_assoc(o0, p2, e3);
            assert(o3 == o0 + p3);
        }
        match port.put_be(&mut tmp) {
            Ok(()) => {},
            Err(e) => {
                return Err(e);
            },
        };
        let ghost o4 = tmp@;
        proof {
            assert(port.model() == m.port);
            lemma_seq_assoc(o0, p3, e4);
            assert(o4 == o0 + p4);
        }
        match game_id.put_be(&mut tmp) {
            Ok(()) => {},
            Err(e) => {
                return Err(e);
            },
        };
        let ghost o5 = tmp@;
        proof {
            assert(game_id.model() == m.game_id);
            lemma_seq_assoc(o0, p4, e5);
            assert(o5 == o0 + p5);
        }
        match key_time.put_be(&mut tmp) {
            Ok(()) => {},
            Err(e) => {
                return Err(e);
            },
        };
        let ghost o6 = tmp@;
        proof {
            assert(key_time.model() == m.key_time);
            lemma_seq_assoc(o0, p5, e6);
            assert(o6 == o0 + p6);
        }
        match is_from_arena.put_be(&mut tmp) {
            Ok(()) => {},
            Err(e) => {
                return Err(e);
            },
        };
        let ghost o7 = tmp@;
        proof {
            assert(is_from_arena.model() == m.is_from_arena);
            lemma_seq_assoc(o0, p6, e7);
            assert(o7 == o0 + p7);
        }
        match key.put_be(&mut tmp) {
            Ok(()) => {},
            Err(e) => {
                return Err(e);
            },
        };
        let ghost o8 = tmp@;
        proof {
            assert(key.model() == m.key);
            lemma_seq_assoc(o0, p7, e8);
            assert(o8 == o0 + p8);
        }
        out.append(&mut tmp);
        proof {
            assert(Self::enc_model(m) == p8);
            assert(o0 + p8 =~= p8);
            assert(out@ == old(out)@ + Self::enc_model(m));
        }
        Ok(())
    }

    #[verifier::rlimit(100)]
    #[verifier::spinoff_prover]
    proof fn lemma_dec_enc(m: ReconnectModel, rest: Seq<u8>) {
        let e1 = <RLE<String, u16> as NetworkAdapter>::enc_model(m.name);
        let e2 = <RLE<String, u16> as NetworkAdapter>::enc_model(m.host);
        let e3 = <RLE<String, u16> as NetworkAdapter>::enc_model(m.stats);
        let e4 = <u32 as NetworkAdapter>::enc_model(m.port);
        let e5 = <u32 as NetworkAdapter>::enc_model(m.game_id);
        let e6 = <u32 as NetworkAdapter>::enc_model(m.key_time);
        let e7 = <bool as NetworkAdapter>::enc_model(m.is_from_arena);
        let e8 = <RLE<Vec<u8>, u16> as NetworkAdapter>::enc_model(m.key);
        let p1 = e1;
        let p2 = p1 + e2;
        let p3 = p2 + e3;
        let p4 = p3 + e4;
        let p5 = p4 + e5;
        let p6 = p5 + e6;
        let p7 = p6 + e7;
        let p8 = p7 + e8;
        assert(Self::enc_model(m) == p8);
        let r8 = rest;
        let r7 = e8 + r8;
        let r6 = e7 + r7;
        let r5 = e6 + r6;
        let r4 = e5 + r5;
        let r3 = e4 + r4;
        let r2 = e3 + r3;
        let r1 = e2 + r2;
        let b = Self::enc_model(m) + rest;
        lemma_seq_assoc(p7, e8, r8);
        assert(p8 + r8 == p7 + r7);
        lemma_seq_assoc(p6, e7, r7);
        assert(p7 + r7 == p6 + r6);
        lemma_seq_assoc(p5, e6, r6);
        assert(p6 + r6 == p5 + r5);
        lemma_seq_assoc(p4, e5, r5);
        assert(p5 + r5 == p4 + r4);
        lemma_seq_assoc(p3, e4, r4);
        assert(p4 + r4 == p3 + r3);
        lemma_seq_assoc(p2, e3, r3);
        assert(p3 + r3 == p2 + r2);
        lemma_seq_assoc(p1, e2, r2);
        assert(p2 + r2 == p1 + r1);
        assert(b == e1 + r1);
        <RLE<String, u16> as NetworkAdapter>::lemma_dec_enc(m.name, r1);
        <RLE<String, u16> as NetworkAdapter>::lemma_dec_enc(m.host, r2);
        <RLE<String, u16> as NetworkAdapter>::lemma_dec_enc(m.stats, r3);
        <u32 as NetworkAdapter>::lemma_dec_enc(m.port, r4);
        <u32 as NetworkAdapter>::lemma_dec_enc(m.game_id, r5);
        <u32 as NetworkAdapter>::lemma_dec_enc(m.key_time, r6);
        <bool as NetworkAdapter>::lemma_dec_enc(m.is_from_arena, r7);
        <RLE<Vec<u8>, u16> as NetworkAdapter>::lemma_dec_enc(m.key, r8);
        let c1 = b.skip(e1.len() as int);
        lemma_skip_concat(e1, r1);
        assert(c1 == r1);
        let c2 = c1.skip(e2.len() as int);
        lemma_skip_concat(e2, r2);
        assert(c2 == r2);
        let c3 = c2.skip(e3.len() as int);
        lemma_skip_concat(e3, r3);
        assert(c3 == r3);
        let c4 = c3.skip(e4.len() as int);
        lemma_skip_concat(e4, r4);
        assert(c4 == r4);
        let c5 = c4.skip(e5.len() as int);
        lemma_skip_concat(e5, r5);
        assert(c5 == r5);
        let c6 = c5.skip(e6.len() as int);
        lemma_skip_concat(e6, r6);
        assert(c6 == r6);
        let c7 = c6.skip(e7.len() as int);
        lemma_skip_concat(e7, r7);
        assert(c7 == r7);
        assert(Self::enc_model(m).len() == e1.len() + e2.len() + e3.len() + e4.len() + e5.len() + e6.len() + e7.len() + e8.len());
        assert(ReconnectModel { name: m.name, host: m.host, stats: m.stats, port: m.port, game_id: m.game_id, key_time: m.key_time, is_from_arena: m.is_from_arena, key: m.key } =~= m);
    }

    #[verifier::rlimit(100)]
    #[verifier::spinoff_prover]
    proof fn lemma_enc_dec(b: Seq<u8>, m: ReconnectModel, n: int) {
        let (g1, n1) = <RLE<String, u16> as NetworkAdapter>::dec(b)->Ok_0;
        <RLE<String, u16> as NetworkAdapter>::lemma_enc_dec(b, g1, n1);
        let b1 = b.skip(n1);
        let (g2, n2) = <RLE<String, u16> as NetworkAdapter>::dec(b1)->Ok_0;
        <RLE<String, u16> as NetworkAdapter>::lemma_enc_dec(b1, g2, n2);
        let b2 = b1.skip(n2);
        let (g3, n3) = <RLE<String, u16> as NetworkAdapter>::dec(b2)->Ok_0;
        <RLE<String, u16> as NetworkAdapter>::lemma_enc_dec(b2, g3, n3);
        let b3 = b2.skip(n3);
        let (g4, n4) = <u32 as NetworkAdapter>::dec(b3)->Ok_0;
        <u32 as NetworkAdapter>::lemma_enc_dec(b3, g4, n4);
        let b4 = b3.skip(n4);
        let (g5, n5) = <u32 as NetworkAdapter>::dec(b4)->Ok_0;
        <u32 as NetworkAdapter>::lemma_enc_dec(b4, g5, n5);
        let b5 = b4.skip(n5);
        let (g6, n6) = <u32 as NetworkAdapter>::dec(b5)->Ok_0;
        <u32 as NetworkAdapter>::lemma_enc_dec(b5, g6, n6);
        let b6 = b5.skip(n6);
        let (g7, n7) = <bool as NetworkAdapter>::dec(b6)->Ok_0;
        <bool as NetworkAdapter>::lemma_enc_dec(b6, g7, n7);
        let b7 = b6.skip(n7);
        let (g8, n8) = <RLE<Vec<u8>, u16> as NetworkAdapter>::dec(b7)->Ok_0;
        <RLE<Vec<u8>, u16> as NetworkAdapter>::lemma_enc_dec(b7, g8, n8);
        lemma_skip_skip(b, n1, n2);
        assert(b2 == b.skip(n1 + n2));
        lemma_skip_skip(b, n1 + n2, n3);
        assert(b3 == b.skip(n1 + n2 + n3));
        lemma_skip_skip(b, n1 + n2 + n3, n4);
        assert(b4 == b.skip(n1 + n2 + n3 + n4));
        lemma_skip_skip(b, n1 + n2 + n3 + n4, n5);
        assert(b5 == b.skip(n1 + n2 + n3 + n4 + n5));
        lemma_skip_skip(b, n1 + n2 + n3 + n4 + n5, n6);
        assert(b6 == b.skip(n1 + n2 + n3 + n4 + n5 + n6));
        lemma_skip_skip(b, n1 + n2 + n3 + n4 + n5 + n6, n7);
        assert(b7 == b.skip(n1 + n2 + n3 + n4 + n5 + n6 + n7));
        assert(n == n1 + n2 + n3 + n4 + n5 + n6 + n7 + n8);
        assert(m.name == g1);
        assert(m.host == g2);
        assert(m.stats == g3);
        assert(m.port == g4);
        assert(m.game_id == g5);
        assert(m.key_time == g6);
        assert(m.is_from_arena == g7);
        assert(m.key == g8);
        if Self::canon(b) {
            let s1 = n1;
            let s2 = s1 + n2;
            let s3 = s2 + n3;
            let s4 = s3 + n4;
            let s5 = s4 + n5;
            let s6 = s5 + n6;
            let s7 = s6 + n7;
            let s8 = s7 + n8;
            let q1 = <RLE<String, u16> as NetworkAdapter>::enc_model(m.name);
            assert(q1 == b.take(s1));
            lemma_take_concat(b, s1, n2);
            let q2 = q1 + <RLE<String, u16> as NetworkAdapter>::enc_model(m.host);
            assert(q2 == b.take(s2));
            lemma_take_concat(b, s2, n3);
            let q3 = q2 + <RLE<String, u16> as NetworkAdapter>::enc_model(m.stats);
            assert(q3 == b.take(s3));
            lemma_take_concat(b, s3, n4);
            let q4 = q3 + <u32 as NetworkAdapter>::enc_model(m.port);
            assert(q4 == b.take(s4));
            lemma_take_concat(b, s4, n5);
            let q5 = q4 + <u32 as NetworkAdapter>::enc_model(m.game_id);
            assert(q5 == b.take(s5));
            lemma_take_concat(b, s5, n6);
            let q6 = q5 + <u32 as NetworkAdapter>::enc_model(m.key_time);
            assert(q6 == b.take(s6));
            lemma_take_concat(b, s6, n7);
            let q7 = q6 + <bool as NetworkAdapter>::enc_model(m.is_from_arena);
            assert(q7 == b.take(s7));
            lemma_take_concat(b, s7, n8);
            let q8 = q7 + <RLE<Vec<u8>, u16> as NetworkAdapter>::enc_model(m.key);
            assert(q8 == b.take(s8));
            assert(Self::enc_model(m) == q8);
            assert(Self::enc_model(m) == b.take(n));
        }
    }
}

#[verifier::ext_equal]
#[derive(Debug, PartialEq, Clone)]
pub struct ReskinUnlock {
    pub skin_id: u32,
    pub is_pet_skin: u32,
}

impl NetworkAdapter for ReskinUnlock {
    type Model = ReskinUnlock;

    open spec fn model(self) -> ReskinUnlock {
        self
    }

    open spec fn enc_model(m: ReskinUnlock) -> Seq<u8> {
        <u32 as NetworkAdapter>::enc_model(m.skin_id) + <u32 as NetworkAdapter>::enc_model(m.is_pet_skin)
    }

    open spec fn valid_model(m: ReskinUnlock) -> bool {
        <u32 as NetworkAdapter>::valid_model(m.skin_id) && <u32 as NetworkAdapter>::valid_model(m.is_pet_skin)
    }

    closed spec fn dec(b: Seq<u8>) -> Result<(ReskinUnlock, int), Error> {
        match <u32 as NetworkAdapter>::dec(b) {
            Ok((g1, n1)) => {
                let b1 = b.skip(n1);
                match <u32 as NetworkAdapter>::dec(b1) {
                    Ok((g2, n2)) => {
                        Ok((ReskinUnlock { skin_id: g1, is_pet_skin: g2 }, n1 + n2))
                    },
                    Err(e) => Err(e),
                }
            },
            Err(e) => Err(e),
        }
    }

    closed spec fn canon(b: Seq<u8>) -> bool {
        match <u32 as NetworkAdapter>::dec(b) {
            Ok((g1, n1)) => <u32 as NetworkAdapter>::canon(b) && {
                let b1 = b.skip(n1);
                match <u32 as NetworkAdapter>::dec(b1) {
                    Ok((g2, n2)) => <u32 as NetworkAdapter>::canon(b1) && {
                        true
                    },
                    Err(e) => true,
                }
            },
            Err(e) => true,
        }
    }

    fn get_be(r: &mut Reader) -> (res: Result<ReskinUnlock, Error>) {
        let ghost b = old(r).remaining_bytes();
        let save = r.position();
        let x1 = match <u32 as NetworkAdapter>::get_be(r) {
            Ok(v) => v,
            Err(e) => {
                r.seek(save);
                return Err(e);
            },
        };
        let x2 = match <u32 as NetworkAdapter>::get_be(r) {
            Ok(v) => v,
            Err(e) => {
                r.seek(save);
                return Err(e);
            },
        };
        proof {
            let (g1, n1) = <u32 as NetworkAdapter>::dec(b)->Ok_0;
            let b1 = b.skip(n1);
            let (g2, n2) = <u32 as NetworkAdapter>::dec(b1)->Ok_0;
            lemma_skip_skip(b, n1, n2);
            assert(b1.skip(n2) == b.skip(n1 + n2));
        }
        Ok(ReskinUnlock { skin_id: x1, is_pet_skin: x2 })
    }

    fn put_be(self, out: &mut Vec<u8>) -> (res: Result<(), Error>) {
        let ghost m = self.model();
        let ReskinUnlock { skin_id, is_pet_skin } = self;
        let ghost e1 = <u32 as NetworkAdapter>::enc_model(m.skin_id);
        let ghost e2 = <u32 as NetworkAdapter>::enc_model(m.is_pet_skin);
        let ghost p1 = e1;
        let ghost p2 = p1 + e2;
        let mut tmp: Vec<u8> = Vec::new();
        let ghost o0 = tmp@;
        match skin_id.put_be(&mut tmp) {
            Ok(()) => {},
            Err(e) => {
                return Err(e);
            },
        };
        let ghost o1 = tmp@;
        proof {
            assert(skin_id == m.skin_id);
            assert(o1 == o0 + p1);
        }
        match is_pet_skin.put_be(&mut tmp) {
            Ok(()) => {},
            Err(e) => {
                return Err(e);
            },
        };
        let ghost o2 = tmp@;
        proof {
            assert(is_pet_skin == m.is_pet_skin);
            lemma_seq_assoc(o0, p1, e2);
            assert(o2 == o0 + p2);
        }
        out.append(&mut tmp);
        proof {
            assert(Self::enc_model(m) == p2);
            assert(o0 + p2 =~= p2);
            assert(out@ == old(out)@ + Self::enc_model(m));
        }
        Ok(())
    }

    proof fn lemma_dec_enc(m: ReskinUnlock, rest: Seq<u8>) {
        let e1 = <u32 as NetworkAdapter>::enc_model(m.skin_id);
        let e2 = <u32 as NetworkAdapter>::enc_model(m.is_pet_skin);
        let p1 = e1;
        let p2 = p1 + e2;
        assert(Self::enc_model(m) == p2);
        let r2 = rest;
        let r1 = e2 + r2;
        let b = Self::enc_model(m) + rest;
        lemma_seq_assoc(p1, e2, r2);
        assert(p2 + r2 == p1 + r1);
        assert(b == e1 + r1);
        <u32 as NetworkAdapter>::lemma_dec_enc(m.skin_id, r1);
        <u32 as NetworkAdapter>::lemma_dec_enc(m.is_pet_skin, r2);
        let c1 = b.skip(e1.len() as int);
        lemma_skip_concat(e1, r1);
        assert(c1 == r1);
        assert(Self::enc_model(m).len() == e1.len() + e2.len());
        assert(ReskinUnlock { skin_id: m.skin_id, is_pet_skin: m.is_pet_skin } =~= m);
    }

    proof fn lemma_enc_dec(b: Seq<u8>, m: ReskinUnlock, n: int) {
        let (g1, n1) = <u32 as NetworkAdapter>::dec(b)->Ok_0;
        <u32 as NetworkAdapter>::lemma_enc_dec(b, g1, n1);
        let b1 = b.skip(n1);
        let (g2, n2) = <u32 as NetworkAdapter>::dec(b1)->Ok_0;
        <u32 as NetworkAdapter>::lemma_enc_dec(b1, g2, n2);
        assert(n == n1 + n2);
        assert(m.skin_id == g1);
        assert(m.is_pet_skin == g2);
        if Self::canon(b) {
            let s1 = n1;
            let s2 = s1 + n2;
            let q1 = <u32 as NetworkAdapter>::enc_model(m.skin_id);
            assert(q1 == b.take(s1));
            lemma_take_concat(b, s1, n2);
            let q2 = q1 + <u32 as NetworkAdapter>::enc_model(m.is_pet_skin);
            assert(q2 == b.take(s2));
            assert(Self::enc_model(m) == q2);
            assert(Self::enc_model(m) == b.take(n));
        }
    }
}

#[verifier::ext_equal]
#[derive(Debug, PartialEq, Clone)]
pub struct ServerPlayerShoot {
    pub bullet_id: u8,
    pub owner_id: u32,
    pub container_type: u32,
    pub starting_pos: WorldPosData,
    pub angle: F32Bits,
    pub damage: u16,
}

impl NetworkAdapter for ServerPlayerShoot {
    type Model = ServerPlayerShoot;

    open spec fn model(self) -> ServerPlayerShoot {
        self
    }

    open spec fn enc_model(m: ServerPlayerShoot) -> Seq<u8> {
        <u8 as NetworkAdapter>::enc_model(m.bullet_id) + <u32 as NetworkAdapter>::enc_model(m.owner_id) + <u32 as NetworkAdapter>::enc_model(m.container_type) + <WorldPosData as NetworkAdapter>::enc_model(m.starting_pos) + <F32Bits as NetworkAdapter>::enc_model(m.angle) + <u16 as NetworkAdapter>::enc_model(m.damage)
    }

    open spec fn valid_model(m: ServerPlayerShoot) -> bool {
        <u8 as NetworkAdapter>::valid_model(m.bullet_id) && <u32 as NetworkAdapter>::valid_model(m.owner_id) && <u32 as NetworkAdapter>::valid_model(m.container_type) && <WorldPosData as NetworkAdapter>::valid_model(m.starting_pos) && <F32Bits as NetworkAdapter>::valid_model(m.angle) && <u16 as NetworkAdapter>::valid_model(m.damage)
    }

    closed spec fn dec(b: Seq<u8>) -> Result<(ServerPlayerShoot, int), Error> {
        match <u8 as NetworkAdapter>::dec(b) {
            Ok((g1, n1)) => {
                let b1 = b.skip(n1);
                match <u32 as NetworkAdapter>::dec(b1) {
                    Ok((g2, n2)) => {
                        let b2 = b1.skip(n2);
                        match <u32 as NetworkAdapter>::dec(b2) {
                            Ok((g3, n3)) => {
                                let b3 = b2.skip(n3);
                                match <WorldPosData as NetworkAdapter>::dec(b3) {
                                    Ok((g4, n4)) => {
                                        let b4 = b3.skip(n4);
                                        match <F32Bits as NetworkAdapter>::dec(b4) {
                                            Ok((g5, n5)) => {
                                                let b5 = b4.skip(n5);
                                                match <u16 as NetworkAdapter>::dec(b5) {
                                                    Ok((g6, n6)) => {
                                                        Ok((ServerPlayerShoot { bullet_id: g1, owner_id: g2, container_type: g3, starting_pos: g4, angle: g5, damage: g6 }, n1 + n2 + n3 + n4 + n5 + n6))
                                                    },
                                                    Err(e) => Err(e),
                                                }
                                            },
                                            Err(e) => Err(e),
                                        }
                                    },
                                    Err(e) => Err(e),
                                }
                            },
                            Err(e) => Err(e),
                        }
                    },
                    Err(e) => Err(e),
                }
            },
            Err(e) => Err(e),
        }
    }

    closed spec fn canon(b: Seq<u8>) -> bool {
        match <u8 as NetworkAdapter>::dec(b) {
            Ok((g1, n1)) => <u8 as NetworkAdapter>::canon(b) && {
                let b1 = b.skip(n1);
                match <u32 as NetworkAdapter>::dec(b1) {
                    Ok((g2, n2)) => <u32 as NetworkAdapter>::canon(b1) && {
                        let b2 = b1.skip(n2);
                        match <u32 as NetworkAdapter>::dec(b2) {
                            Ok((g3, n3)) => <u32 as NetworkAdapter>::canon(b2) && {
                                let b3 = b2.skip(n3);
                                match <WorldPosData as NetworkAdapter>::dec(b3) {
                                    Ok((g4, n4)) => <WorldPosData as NetworkAdapter>::canon(b3) && {
                                        let b4 = b3.skip(n4);
                                        match <F32Bits as NetworkAdapter>::dec(b4) {
                                            Ok((g5, n5)) => <F32Bits as NetworkAdapter>::canon(b4) && {
                                                let b5 = b4.skip(n5);
                                                match <u16 as NetworkAdapter>::dec(b5) {
                                                    Ok((g6, n6)) => <u16 as NetworkAdapter>::canon(b5) && {
                                                        true
                                                    },
                                                    Err(e) => true,
                                                }
                                            },
                                            Err(e) => true,
                                        }
                                    },
                                    Err(e) => true,
                                }
                            },
                            Err(e) => true,
                        }
                    },
                    Err(e) => true,
                }
            },
            Err(e) => true,
        }
    }

    #[verifier::rlimit(100)]
    #[verifier::spinoff_prover]
    fn get_be(r: &mut Reader) -> (res: Result<ServerPlayerShoot, Error>) {
        let ghost b = old(r).remaining_bytes();
        let save = r.position();
        let x1 = match <u8 as NetworkAdapter>::get_be(r) {
            Ok(v) => v,
            Err(e) => {
                r.seek(save);
                return Err(e);
            },
        };
        let x2 = match <u32 as NetworkAdapter>::get_be(r) {
            Ok(v) => v,
            Err(e) => {
                r.seek(save);
                return Err(e);
            },
        };
        let x3 = match <u32 as NetworkAdapter>::get_be(r) {
            Ok(v) => v,
            Err(e) => {
                r.seek(save);
                return Err(e);
            },
        };
        let x4 = match <WorldPosData as NetworkAdapter>::get_be(r) {
            Ok(v) => v,
            Err(e) => {
                r.seek(save);
                return Err(e);
            },
        };
        let x5 = match <F32Bits as NetworkAdapter>::get_be(r) {
            Ok(v) => v,
            Err(e) => {
                r.seek(save);
                return Err(e);
            },
        };
        let x6 = match <u16 as NetworkAdapter>::get_be(r) {
            Ok(v) => v,
            Err(e) => {
                r.seek(save);
                return Err(e);
            },
        };
        proof {
            let (g1, n1) = <u8 as NetworkAdapter>::dec(b)->Ok_0;
            let b1 = b.skip(n1);
            let (g2, n2) = <u32 as NetworkAdapter>::dec(b1)->Ok_0;
            let b2 = b1.skip(n2);
            let (g3, n3) = <u32 as NetworkAdapter>::dec(b2)->Ok_0;
            let b3 = b2.skip(n3);
            let (g4, n4) = <WorldPosData as NetworkAdapter>::dec(b3)->Ok_0;
            let b4 = b3.skip(n4);
            let (g5, n5) = <F32Bits as NetworkAdapter>::dec(b4)->Ok_0;
            let b5 = b4.skip(n5);
            let (g6, n6) = <u16 as NetworkAdapter>::dec(b5)->Ok_0;
            lemma_skip_skip(b, n1, n2);
            assert(b2 == b.skip(n1 + n2));
            lemma_skip_skip(b, n1 + n2, n3);
            assert(b3 == b.skip(n1 + n2 + n3));
            lemma_skip_skip(b, n1 + n2 + n3, n4);
            assert(b4 == b.skip(n1 + n2 + n3 + n4));
            lemma_skip_skip(b, n1 + n2 + n3 + n4, n5);
            assert(b5 == b.skip(n1 + n2 + n3 + n4 + n5));
            lemma_skip_skip(b, n1 + n2 + n3 + n4 + n5, n6);
            assert(b5.skip(n6) == b.skip(n1 + n2 + n3 + n4 + n5 + n6));
        }
        Ok(ServerPlayerShoot { bullet_id: x1, owner_id: x2, container_type: x3, starting_pos: x4, angle: x5, damage: x6 })
    }

    #[verifier::rlimit(100)]
    #[verifier::spinoff_prover]
    fn put_be(self, out: &mut Vec<u8>) -> (res: Result<(), Error>) {
        let ghost m = self.model();
        let ServerPlayerShoot { bullet_id, owner_id, container_type, starting_pos, angle, damage } = self;
        let ghost e1 = <u8 as NetworkAdapter>::enc_model(m.bullet_id);
        let ghost e2 = <u32 as NetworkAdapter>::enc_model(m.owner_id);
        let ghost e3 = <u32 as NetworkAdapter>::enc_model(m.container_type);
        let ghost e4 = <WorldPosData as NetworkAdapter>::enc_model(m.starting_pos);
        let ghost e5 = <F32Bits as NetworkAdapter>::enc_model(m.angle);
        let ghost e6 = <u16 as NetworkAdapter>::enc_model(m.damage);
        let ghost p1 = e1;
        let ghost p2 = p1 + e2;
        let ghost p3 = p2 + e3;
        let ghost p4 = p3 + e4;
        let ghost p5 = p4 + e5;
        let ghost p6 = p5 + e6;
        let mut tmp: Vec<u8> = Vec::new();
        let ghost o0 = tmp@;
        match bullet_id.put_be(&mut tmp) {
            Ok(()) => {},
            Err(e) => {
                return Err(e);
            },
        };
        let ghost o1 = tmp@;
        proof {
            assert(bullet_id == m.bullet_id);
            assert(o1 == o0 + p1);
        }
        match owner_id.put_be(&mut tmp) {
            Ok(()) => {},
            Err(e) => {
                return Err(e);
            },
        };
        let ghost o2 = tmp@;
        proof {
            assert(owner_id == m.owner_id);
            lemma_seq_assoc(o0, p1, e2);
            assert(o2 == o0 + p2);
        }
        match container_type.put_be(&mut tmp) {
            Ok(()) => {},
            Err(e) => {
                return Err(e);
            },
        };
        let ghost o3 = tmp@;
        proof {
            assert(container_type == m.container_type);
            lemma_seq_assoc(o0, p2, e3);
            assert(o3 == o0 + p3);
        }
        match starting_pos.put_be(&mut tmp) {
            Ok(()) => {},
            Err(e) => {
                return Err(e);
            },
        };
        let ghost o4 = tmp@;
        proof {
            assert(starting_pos == m.starting_pos);
            lemma_seq_assoc(o0, p3, e4);
            assert(o4 == o0 + p4);
        }
        match angle.put_be(&mut tmp) {
            Ok(()) => {},
            Err(e) => {
                return Err(e);
            },
        };
        let ghost o5 = tmp@;
        proof {
            assert(angle == m.angle);
            lemma_seq_assoc(o0, p4, e5);
            assert(o5 == o0 + p5);
        }
        match damage.put_be(&mut tmp) {
            Ok(()) => {},
            Err(e) => {
                return Err(e);
            },
        };
        let ghost o6 = tmp@;
        proof {
            assert(damage == m.damage);
            lemma_seq_assoc(o0, p5, e6);
            assert(o6 == o0 + p6);
        }
        out.append(&mut tmp);
        proof {
            assert(Self::enc_model(m) == p6);
            assert(o0 + p6 =~= p6);
            assert(out@ == old(out)@ + Self::enc_model(m));
        }
        Ok(())
    }

    #[verifier::rlimit(100)]
    #[verifier::spinoff_prover]
    proof fn lemma_dec_enc(m: ServerPlayerShoot, rest: Seq<u8>) {
        let e1 = <u8 as NetworkAdapter>::enc_model(m.bullet_id);
        let e2 = <u32 as NetworkAdapter>::enc_model(m.owner_id);
        let e3 = <u32 as NetworkAdapter>::enc_model(m.container_type);
        let e4 = <WorldPosData as NetworkAdapter>::enc_model(m.starting_pos);
        let e5 = <F32Bits as NetworkAdapter>::enc_model(m.angle);
        let e6 = <u16 as NetworkAdapter>::enc_model(m.damage);
        let p1 = e1;
        let p2 = p1 + e2;
        let p3 = p2 + e3;
        let p4 = p3 + e4;
        let p5 = p4 + e5;
        let p6 = p5 + e6;
        assert(Self::enc_model(m) == p6);
        let r6 = rest;
        let r5 = e6 + r6;
        let r4 = e5 + r5;
        let r3 = e4 + r4;
        let r2 = e3 + r3;
        let r1 = e2 + r2;
        let b = Self::enc_model(m) + rest;
        lemma_seq_assoc(p5, e6, r6);
        assert(p6 + r6 == p5 + r5);
        lemma_seq_assoc(p4, e5, r5);
        assert(p5 + r5 == p4 + r4);
        lemma_seq_assoc(p3, e4, r4);
        assert(p4 + r4 == p3 + r3);
        lemma_seq_assoc(p2, e3, r3);
        assert(p3 + r3 == p2 + r2);
        lemma_seq_assoc(p1, e2, r2);
        assert(p2 + r2 == p1 + r1);
        assert(b == e1 + r1);
        <u8 as NetworkAdapter>::lemma_dec_enc(m.bullet_id, r1);
        <u32 as NetworkAdapter>::lemma_dec_enc(m.owner_id, r2);
        <u32 as NetworkAdapter>::lemma_dec_enc(m.container_type, r3);
        <WorldPosData as NetworkAdapter>::lemma_dec_enc(m.starting_pos, r4);
        <F32Bits as NetworkAdapter>::lemma_dec_enc(m.angle, r5);
        <u16 as NetworkAdapter>::lemma_dec_enc(m.damage, r6);
        let c1 = b.skip(e1.len() as int);
        lemma_skip_concat(e1, r1);
        assert(c1 == r1);
        let c2 = c1.skip(e2.len() as int);
        lemma_skip_concat(e2, r2);
        assert(c2 == r2);
        let c3 = c2.skip(e3.len() as int);
        lemma_skip_concat(e3, r3);
        assert(c3 == r3);
        let c4 = c3.skip(e4.len() as int);
        lemma_skip_concat(e4, r4);
        assert(c4 == r4);
        let c5 = c4.skip(e5.len() as int);
        lemma_skip_concat(e5, r5);
        assert(c5 == r5);
        assert(Self::enc_model(m).len() == e1.len() + e2.len() + e3.len() + e4.len() + e5.len() + e6.len());
        assert(ServerPlayerShoot { bullet_id: m.bullet_id, owner_id: m.owner_id, container_type: m.container_type, starting_pos: m.starting_pos, angle: m.angle, damage: m.damage } =~= m);
    }

    #[verifier::rlimit(100)]
    #[verifier::spinoff_prover]
    proof fn lemma_enc_dec(b: Seq<u8>, m: ServerPlayerShoot, n: int) {
        let (g1, n1) = <u8 as NetworkAdapter>::dec(b)->Ok_0;
        <u8 as NetworkAdapter>::lemma_enc_dec(b, g1, n1);
        let b1 = b.skip(n1);
        let (g2, n2) = <u32 as NetworkAdapter>::dec(b1)->Ok_0;
        <u32 as NetworkAdapter>::lemma_enc_dec(b1, g2, n2);
        let b2 = b1.skip(n2);
        let (g3, n3) = <u32 as NetworkAdapter>::dec(b2)->Ok_0;
        <u32 as NetworkAdapter>::lemma_enc_dec(b2, g3, n3);
        let b3 = b2.skip(n3);
        let (g4, n4) = <WorldPosData as NetworkAdapter>::dec(b3)->Ok_0;
        <WorldPosData as NetworkAdapter>::lemma_enc_dec(b3, g4, n4);
        let b4 = b3.skip(n4);
        let (g5, n5) = <F32Bits as NetworkAdapter>::dec(b4)->Ok_0;
        <F32Bits as NetworkAdapter>::lemma_enc_dec(b4, g5, n5);
        let b5 = b4.skip(n5);
        let (g6, n6) = <u16 as NetworkAdapter>::dec(b5)->Ok_0;
        <u16 as NetworkAdapter>::lemma_enc_dec(b5, g6, n6);
        lemma_skip_skip(b, n1, n2);
        assert(b2 == b.skip(n1 + n2));
        lemma_skip_skip(b, n1 + n2, n3);
        assert(b3 == b.skip(n1 + n2 + n3));
        lemma_skip_skip(b, n1 + n2 + n3, n4);
        assert(b4 == b.skip(n1 + n2 + n3 + n4));
        lemma_skip_skip(b, n1 + n2 + n3 + n4, n5);
        assert(b5 == b.skip(n1 + n2 + n3 + n4 + n5));
        assert(n == n1 + n2 + n3 + n4 + n5 + n6);
        assert(m.bullet_id == g1);
        assert(m.owner_id == g2);
        assert(m.container_type == g3);
        assert(m.starting_pos == g4);
        assert(m.angle == g5);
        assert(m.damage == g6);
        if Self::canon(b) {
            let s1 = n1;
            let s2 = s1 + n2;
            let s3 = s2 + n3;
            let s4 = s3 + n4;
            let s5 = s4 + n5;
            let s6 = s5 + n6;
            let q1 = <u8 as NetworkAdapter>::enc_model(m.bullet_id);
            assert(q1 == b.take(s1));
            lemma_take_concat(b, s1, n2);
            let q2 = q1 + <u32 as NetworkAdapter>::enc_model(m.owner_id);
            assert(q2 == b.take(s2));
            lemma_take_concat(b, s2, n3);
            let q3 = q2 + <u32 as NetworkAdapter>::enc_model(m.container_type);
            assert(q3 == b.take(s3));
            lemma_take_concat(b, s3, n4);
            let q4 = q3 + <WorldPosData as NetworkAdapter>::enc_model(m.starting_pos);
            assert(q4 == b.take(s4));
            lemma_take_concat(b, s4, n5);
            let q5 = q4 + <F32Bits as NetworkAdapter>::enc_model(m.angle);
            assert(q5 == b.take(s5));
            lemma_take_concat(b, s5, n6);
            let q6 = q5 + <u16 as NetworkAdapter>::enc_model(m.damage);
            assert(q6 == b.take(s6));
            assert(Self::enc_model(m) == q6);
            assert(Self::enc_model(m) == b.take(n));
        }
    }
}

#[verifier::ext_equal]
#[derive(Debug, PartialEq, Clone)]
pub struct ShowEffect {
    pub effect_type: u8,
    pub target_object_id: u32,
    pub pos1: WorldPosData,
    pub pos2: WorldPosData,
    pub color: u32,
    pub duration: F32Bits,
}

impl NetworkAdapter for ShowEffect {
    type Model = ShowEffect;

    open spec fn model(self) -> ShowEffect {
        self
    }

    open spec fn enc_model(m: ShowEffect) -> Seq<u8> {
        <u8 as NetworkAdapter>::enc_model(m.effect_type) + <u32 as NetworkAdapter>::enc_model(m.target_object_id) + <WorldPosData as NetworkAdapter>::enc_model(m.pos1) + <WorldPosData as NetworkAdapter>::enc_model(m.pos2) + <u32 as NetworkAdapter>::enc_model(m.color) + <F32Bits as NetworkAdapter>::enc_model(m.duration)
    }

    open spec fn valid_model(m: ShowEffect) -> bool {
        <u8 as NetworkAdapter>::valid_model(m.effect_type) && <u32 as NetworkAdapter>::valid_model(m.target_object_id) && <WorldPosData as NetworkAdapter>::valid_model(m.pos1) && <WorldPosData as NetworkAdapter>::valid_model(m.pos2) && <u32 as NetworkAdapter>::valid_model(m.color) && <F32Bits as NetworkAdapter>::valid_model(m.duration)
    }

    closed spec fn dec(b: Seq<u8>) -> Result<(ShowEffect, int), Error> {
        match <u8 as NetworkAdapter>::dec(b) {
            Ok((g1, n1)) => {
                let b1 = b.skip(n1);
                match <u32 as NetworkAdapter>::dec(b1) {
                    Ok((g2, n2)) => {
                        let b2 = b1.skip(n2);
                        match <WorldPosData as NetworkAdapter>::dec(b2) {
                            Ok((g3, n3)) => {
                                let b3 = b2.skip(n3);
                                match <WorldPosData as NetworkAdapter>::dec(b3) {
                                    Ok((g4, n4)) => {
                                        let b4 = b3.skip(n4);
                                        match <u32 as NetworkAdapter>::dec(b4) {
                                            Ok((g5, n5)) => {
                                                let b5 = b4.skip(n5);
                                                match <F32Bits as NetworkAdapter>::dec(b5) {
                                                    Ok((g6, n6)) => {
                                                        Ok((ShowEffect { effect_type: g1, target_object_id: g2, pos1: g3, pos2: g4, color: g5, duration: g6 }, n1 + n2 + n3 + n4 + n5 + n6))
                                                    },
                                                    Err(e) => Err(e),
                                                }
                                            },
                                            Err(e) => Err(e),
                                        }
                                    },
                                    Err(e) => Err(e),
                                }
                            },
                            Err(e) => Err(e),
                        }
                    },
                    Err(e) => Err(e),
                }
            },
            Err(e) => Err(e),
        }
    }

    closed spec fn canon(b: Seq<u8>) -> bool {
        match <u8 as NetworkAdapter>::dec(b) {
            Ok((g1, n1)) => <u8 as NetworkAdapter>::canon(b) && {
                let b1 = b.skip(n1);
                match <u32 as NetworkAdapter>::dec(b1) {
                    Ok((g2, n2)) => <u32 as NetworkAdapter>::canon(b1) && {
                        let b2 = b1.skip(n2);
                        match <WorldPosData as NetworkAdapter>::dec(b2) {
                            Ok((g3, n3)) => <WorldPosData as NetworkAdapter>::canon(b2) && {
                                let b3 = b2.skip(n3);
                                match <WorldPosData as NetworkAdapter>::dec(b3) {
                                    Ok((g4, n4)) => <WorldPosData as NetworkAdapter>::canon(b3) && {
                                        let b4 = b3.skip(n4);
                                        match <u32 as NetworkAdapter>::dec(b4) {
                                            Ok((g5, n5)) => <u32 as NetworkAdapter>::canon(b4) && {
                                                let b5 = b4.skip(n5);
                                                match <F32Bits as NetworkAdapter>::dec(b5) {
                                                    Ok((g6, n6)) => <F32Bits as NetworkAdapter>::canon(b5) && {
                                                        true
                                                    },
                                                    Err(e) => true,
                                                }
                                            },
                                            Err(e) => true,
                                        }
                                    },
                                    Err(e) => true,
                                }
                            },
                            Err(e) => true,
                        }
                    },
                    Err(e) => true,
                }
            },
            Err(e) => true,
        }
    }

    #[verifier::rlimit(100)]
    #[verifier::spinoff_prover]
    fn get_be(r: &mut Reader) -> (res: Result<ShowEffect, Error>) {
        let ghost b = old(r).remaining_bytes();
        let save = r.position();
        let x1 = match <u8 as NetworkAdapter>::get_be(r) {
            Ok(v) => v,
            Err(e) => {
                r.seek(save);
                return Err(e);
            },
        };
        let x2 = match <u32 as NetworkAdapter>::get_be(r) {
            Ok(v) => v,
            Err(e) => {
                r.seek(save);
                return Err(e);
            },
        };
        let x3 = match <WorldPosData as NetworkAdapter>::get_be(r) {
            Ok(v) => v,
            Err(e) => {
                r.seek(save);
                return Err(e);
            },
        };
        let x4 = match <WorldPosData as NetworkAdapter>::get_be(r) {
            Ok(v) => v,
            Err(e) => {
                r.seek(save);
                return Err(e);
            },
        };
        let x5 = match <u32 as NetworkAdapter>::get_be(r) {
            Ok(v) => v,
            Err(e) => {
                r.seek(save);
                return Err(e);
            },
        };
        let x6 = match <F32Bits as NetworkAdapter>::get_be(r) {
            Ok(v) => v,
            Err(e) => {
                r.seek(save);
                return Err(e);
            },
        };
        proof {
            let (g1, n1) = <u8 as NetworkAdapter>::dec(b)->Ok_0;
            let b1 = b.skip(n1);
            let (g2, n2) = <u32 as NetworkAdapter>::dec(b1)->Ok_0;
            let b2 = b1.skip(n2);
            let (g3, n3) = <WorldPosData as NetworkAdapter>::dec(b2)->Ok_0;
            let b3 = b2.skip(n3);
            let (g4, n4) = <WorldPosData as NetworkAdapter>::dec(b3)->Ok_0;
            let b4 = b3.skip(n4);
            let (g5, n5) = <u32 as NetworkAdapter>::dec(b4)->Ok_0;
            let b5 = b4.skip(n5);
            let (g6, n6) = <F32Bits as NetworkAdapter>::dec(b5)->Ok_0;
            lemma_skip_skip(b, n1, n2);
            assert(b2 == b.skip(n1 + n2));
            lemma_skip_skip(b, n1 + n2, n3);
            assert(b3 == b.skip(n1 + n2 + n3));
            lemma_skip_skip(b, n1 + n2 + n3, n4);
            assert(b4 == b.skip(n1 + n2 + n3 + n4));
            lemma_skip_skip(b, n1 + n2 + n3 + n4, n5);
            assert(b5 == b.skip(n1 + n2 + n3 + n4 + n5));
            lemma_skip_skip(b, n1 + n2 + n3 + n4 + n5, n6);
            assert(b5.skip(n6) == b.skip(n1 + n2 + n3 + n4 + n5 + n6));
        }
        Ok(ShowEffect { effect_type: x1, target_object_id: x2, pos1: x3, pos2: x4, color: x5, duration: x6 })
    }

    #[verifier::rlimit(100)]
    #[verifier::spinoff_prover]
    fn put_be(self, out: &mut Vec<u8>) -> (res: Result<(), Error>) {
        let ghost m = self.model();
        let ShowEffect { effect_type, target_object_id, pos1, pos2, color, duration } = self;
        let ghost e1 = <u8 as NetworkAdapter>::enc_model(m.effect_type);
        let ghost e2 = <u32 as NetworkAdapter>::enc_model(m.target_object_id);
        let ghost e3 = <WorldPosData as NetworkAdapter>::enc_model(m.pos1);
        let ghost e4 = <WorldPosData as NetworkAdapter>::enc_model(m.pos2);
        let ghost e5 = <u32 as NetworkAdapter>::enc_model(m.color);
        let ghost e6 = <F32Bits as NetworkAdapter>::enc_model(m.duration);
        let ghost p1 = e1;
        let ghost p2 = p1 + e2;
        let ghost p3 = p2 + e3;
        let ghost p4 = p3 + e4;
        let ghost p5 = p4 + e5;
        let ghost p6 = p5 + e6;
        let mut tmp: Vec<u8> = Vec::new();
        let ghost o0 = tmp@;
        match effect_type.put_be(&mut tmp) {
            Ok(()) => {},
            Err(e) => {
                return Err(e);
            },
        };
        let ghost o1 = tmp@;
        proof {
            assert(effect_type == m.effect_type);
            assert(o1 == o0 + p1);
        }
        match target_object_id.put_be(&mut tmp) {
            Ok(()) => {},
            Err(e) => {
                return Err(e);
            },
        };
        let ghost o2 = tmp@;
        proof {
            assert(target_object_id == m.target_object_id);
            lemma_seq_assoc(o0, p1, e2);
            assert(o2 == o0 + p2);
        }
        match pos1.put_be(&mut tmp) {
            Ok(()) => {},
            Err(e) => {
                return Err(e);
            },
        };
        let ghost o3 = tmp@;
        proof {
            assert(pos1 == m.pos1);
            lemma_seq_assoc(o0, p2, e3);
            assert(o3 == o0 + p3);
        }
        match pos2.put_be(&mut tmp) {
            Ok(()) => {},
            Err(e) => {
                return Err(e);
            },
        };
        let ghost o4 = tmp@;
        proof {
            assert(pos2 == m.pos2);
            lemma_seq_assoc(o0, p3, e4);
            assert(o4 == o0 + p4);
        }
        match color.put_be(&mut tmp) {
            Ok(()) => {},
            Err(e) => {
                return Err(e);
            },
        };
        let ghost o5 = tmp@;
        proof {
            assert(color == m.color);
            lemma_seq_assoc(o0, p4, e5);
            assert(o5 == o0 + p5);
        }
        match duration.put_be(&mut tmp) {
            Ok(()) => {},
            Err(e) => {
                return Err(e);
            },
        };
        let ghost o6 = tmp@;
        proof {
            assert(duration == m.duration);
            lemma_seq_assoc(o0, p5, e6);
            assert(o6 == o0 + p6);
        }
        out.append(&mut tmp);
        proof {
            assert(Self::enc_model(m) == p6);
            assert(o0 + p6 =~= p6);
            assert(out@ == old(out)@ + Self::enc_model(m));
        }
        Ok(())
    }

    #[verifier::rlimit(100)]
    #[verifier::spinoff_prover]
    proof fn lemma_dec_enc(m: ShowEffect, rest: Seq<u8>) {
        let e1 = <u8 as NetworkAdapter>::enc_model(m.effect_type);
        let e2 = <u32 as NetworkAdapter>::enc_model(m.target_object_id);
        let e3 = <WorldPosData as NetworkAdapter>::enc_model(m.pos1);
        let e4 = <WorldPosData as NetworkAdapter>::enc_model(m.pos2);
        let e5 = <u32 as NetworkAdapter>::enc_model(m.color);
        let e6 = <F32Bits as NetworkAdapter>::enc_model(m.duration);
        let p1 = e1;
        let p2 = p1 + e2;
        let p3 = p2 + e3;
        let p4 = p3 + e4;
        let p5 = p4 + e5;
        let p6 = p5 + e6;
        assert(Self::enc_model(m) == p6);
        let r6 = rest;
        let r5 = e6 + r6;
        let r4 = e5 + r5;
        let r3 = e4 + r4;
        let r2 = e3 + r3;
        let r1 = e2 + r2;
        let b = Self::enc_model(m) + rest;
        lemma_seq_assoc(p5, e6, r6);
        assert(p6 + r6 == p5 + r5);
        lemma_seq_assoc(p4, e5, r5);
        assert(p5 + r5 == p4 + r4);
        lemma_seq_assoc(p3, e4, r4);
        assert(p4 + r4 == p3 + r3);
        lemma_seq_assoc(p2, e3, r3);
        assert(p3 + r3 == p2 + r2);
        lemma_seq_assoc(p1, e2, r2);
        assert(p2 + r2 == p1 + r1);
        assert(b == e1 + r1);
        <u8 as NetworkAdapter>::lemma_dec_enc(m.effect_type, r1);
        <u32 as NetworkAdapter>::lemma_dec_enc(m.target_object_id, r2);
        <WorldPosData as NetworkAdapter>::lemma_dec_enc(m.pos1, r3);
        <WorldPosData as NetworkAdapter>::lemma_dec_enc(m.pos2, r4);
        <u32 as NetworkAdapter>::lemma_dec_enc(m.color, r5);
        <F32Bits as NetworkAdapter>::lemma_dec_enc(m.duration, r6);
        let c1 = b.skip(e1.len() as int);
        lemma_skip_concat(e1, r1);
        assert(c1 == r1);
        let c2 = c1.skip(e2.len() as int);
        lemma_skip_concat(e2, r2);
        assert(c2 == r2);
        let c3 = c2.skip(e3.len() as int);
        lemma_skip_concat(e3, r3);
        assert(c3 == r3);
        let c4 = c3.skip(e4.len() as int);
        lemma_skip_concat(e4, r4);
        assert(c4 == r4);
        let c5 = c4.skip(e5.len() as int);
        lemma_skip_concat(e5, r5);
        assert(c5 == r5);
        assert(Self::enc_model(m).len() == e1.len() + e2.len() + e3.len() + e4.len() + e5.len() + e6.len());
        assert(ShowEffect { effect_type: m.effect_type, target_object_id: m.target_object_id, pos1: m.pos1, pos2: m.pos2, color: m.color, duration: m.duration } =~= m);
    }

    #[verifier::rlimit(100)]
    #[verifier::spinoff_prover]
    proof fn lemma_enc_dec(b: Seq<u8>, m: ShowEffect, n: int) {
        let (g1, n1) = <u8 as NetworkAdapter>::dec(b)->Ok_0;
        <u8 as NetworkAdapter>::lemma_enc_dec(b, g1, n1);
        let b1 = b.skip(n1);
        let (g2, n2) = <u32 as NetworkAdapter>::dec(b1)->Ok_0;
        <u32 as NetworkAdapter>::lemma_enc_dec(b1, g2, n2);
        let b2 = b1.skip(n2);
        let (g3, n3) = <WorldPosData as NetworkAdapter>::dec(b2)->Ok_0;
        <WorldPosData as NetworkAdapter>::lemma_enc_dec(b2, g3, n3);
        let b3 = b2.skip(n3);
        let (g4, n4) = <WorldPosData as NetworkAdapter>::dec(b3)->Ok_0;
        <WorldPosData as NetworkAdapter>::lemma_enc_dec(b3, g4, n4);
        let b4 = b3.skip(n4);
        let (g5, n5) = <u32 as NetworkAdapter>::dec(b4)->Ok_0;
        <u32 as NetworkAdapter>::lemma_enc_dec(b4, g5, n5);
        let b5 = b4.skip(n5);
        let (g6, n6) = <F32Bits as NetworkAdapter>::dec(b5)->Ok_0;
        <F32Bits as NetworkAdapter>::lemma_enc_dec(b5, g6, n6);
        lemma_skip_skip(b, n1, n2);
        assert(b2 == b.skip(n1 + n2));
        lemma_skip_skip(b, n1 + n2, n3);
        assert(b3 == b.skip(n1 + n2 + n3));
        lemma_skip_skip(b, n1 + n2 + n3, n4);
        assert(b4 == b.skip(n1 + n2 + n3 + n4));
        lemma_skip_skip(b, n1 + n2 + n3 + n4, n5);
        assert(b5 == b.skip(n1 + n2 + n3 + n4 + n5));
        assert(n == n1 + n2 + n3 + n4 + n5 + n6);
        assert(m.effect_type == g1);
        assert(m.target_object_id == g2);
        assert(m.pos1 == g3);
        assert(m.pos2 == g4);
        assert(m.color == g5);
        assert(m.duration == g6);
        if Self::canon(b) {
            let s1 = n1;
            let s2 = s1 + n2;
            let s3 = s2 + n3;
            let s4 = s3 + n4;
            let s5 = s4 + n5;
            let s6 = s5 + n6;
            let q1 = <u8 as NetworkAdapter>::enc_model(m.effect_type);
            assert(q1 == b.take(s1));
            lemma_take_concat(b, s1, n2);
            let q2 = q1 + <u32 as NetworkAdapter>::enc_model(m.target_object_id);
            assert(q2 == b.take(s2));
            lemma_take_concat(b, s2, n3);
            let q3 = q2 + <WorldPosData as NetworkAdapter>::enc_model(m.pos1);
            assert(q3 == b.take(s3));
            lemma_take_concat(b, s3, n4);
            let q4 = q3 + <WorldPosData as NetworkAdapter>::enc_model(m.pos2);
            assert(q4 == b.take(s4));
            lemma_take_concat(b, s4, n5);
            let q5 = q4 + <u32 as NetworkAdapter>::enc_model(m.color);
            assert(q5 == b.take(s5));
            lemma_take_concat(b, s5, n6);
            let q6 = q5 + <F32Bits as NetworkAdapter>::enc_model(m.duration);
            assert(q6 == b.take(s6));
            assert(Self::enc_model(m) == q6);
            assert(Self::enc_model(m) == b.take(n));
        }
    }
}

#[verifier::ext_equal]
#[derive(Debug, PartialEq, Clone)]
pub struct Text {
    pub name: RLE<String, u16>,
    pub object_id: u32,
    pub num_stars: u32,
    pub bubble_time: u8,
    pub recipient: RLE<String, u16>,
    pub text: RLE<String, u16>,
    pub clean_text: RLE<String, u16>,
    pub is_supporter: bool,
}

/// The mathematical model of a decoded `Text`.
#[verifier::ext_equal]
pub struct TextModel {
    pub name: Seq<char>,
    pub object_id: u32,
    pub num_stars: u32,
    pub bubble_time: u8,
    pub recipient: Seq<char>,
    pub text: Seq<char>,
    pub clean_text: Seq<char>,
    pub is_supporter: bool,
}

impl NetworkAdapter for Text {
    type Model = TextModel;

    open spec fn model(self) -> TextModel {
        TextModel {
            name: self.name.model(),
            object_id: self.object_id.model(),
            num_stars: self.num_stars.model(),
            bubble_time: self.bubble_time.model(),
            recipient: self.recipient.model(),
            text: self.text.model(),
            clean_text: self.clean_text.model(),
            is_supporter: self.is_supporter.model(),
        }
    }

    open spec fn enc_model(m: TextModel) -> Seq<u8> {
        <RLE<String, u16> as NetworkAdapter>::enc_model(m.name) + <u32 as NetworkAdapter>::enc_model(m.object_id) + <u32 as NetworkAdapter>::enc_model(m.num_stars) + <u8 as NetworkAdapter>::enc_model(m.bubble_time) + <RLE<String, u16> as NetworkAdapter>::enc_model(m.recipient) + <RLE<String, u16> as NetworkAdapter>::enc_model(m.text) + <RLE<String, u16> as NetworkAdapter>::enc_model(m.clean_text) + <bool as NetworkAdapter>::enc_model(m.is_supporter)
    }

    open spec fn valid_model(m: TextModel) -> bool {
        <RLE<String, u16> as NetworkAdapter>::valid_model(m.name) && <u32 as NetworkAdapter>::valid_model(m.object_id) && <u32 as NetworkAdapter>::valid_model(m.num_stars) && <u8 as NetworkAdapter>::valid_model(m.bubble_time) && <RLE<String, u16> as NetworkAdapter>::valid_model(m.recipient) && <RLE<String, u16> as NetworkAdapter>::valid_model(m.text) && <RLE<String, u16> as NetworkAdapter>::valid_model(m.clean_text) && <bool as NetworkAdapter>::valid_model(m.is_supporter)
    }

    closed spec fn dec(b: Seq<u8>) -> Result<(TextModel, int), Error> {
        match <RLE<String, u16> as NetworkAdapter>::dec(b) {
            Ok((g1, n1)) => {
                let b1 = b.skip(n1);
                match <u32 as NetworkAdapter>::dec(b1) {
                    Ok((g2, n2)) => {
                        let b2 = b1.skip(n2);
                        match <u32 as NetworkAdapter>::dec(b2) {
                            Ok((g3, n3)) => {
                                let b3 = b2.skip(n3);
                                match <u8 as NetworkAdapter>::dec(b3) {
                                    Ok((g4, n4)) => {
                                        let b4 = b3.skip(n4);
                                        match <RLE<String, u16> as NetworkAdapter>::dec(b4) {
                                            Ok((g5, n5)) => {
                                                let b5 = b4.skip(n5);
                                                match <RLE<String, u16> as NetworkAdapter>::dec(b5) {
                                                    Ok((g6, n6)) => {
                                                        let b6 = b5.skip(n6);
                                                        match <RLE<String, u16> as NetworkAdapter>::dec(b6) {
                                                            Ok((g7, n7)) => {
                                                                let b7 = b6.skip(n7);
                                                                match <bool as NetworkAdapter>::dec(b7) {
                                                                    Ok((g8, n8)) => {
                                                                        Ok((TextModel { name: g1, object_id: g2, num_stars: g3, bubble_time: g4, recipient: g5, text: g6, clean_text: g7, is_supporter: g8 }, n1 + n2 + n3 + n4 + n5 + n6 + n7 + n8))
                                                                    },
                                                                    Err(e) => Err(e),
                                                                }
                                                            },
                                                            Err(e) => Err(e),
                                                        }
                                                    },
                                                    Err(e) => Err(e),
                                                }
                                            },
                                            Err(e) => Err(e),
                                        }
                                    },
                                    Err(e) => Err(e),
                                }
                            },
                            Err(e) => Err(e),
                        }
                    },
                    Err(e) => Err(e),
                }
            },
            Err(e) => Err(e),
        }
    }

    closed spec fn canon(b: Seq<u8>) -> bool {
        match <RLE<String, u16> as NetworkAdapter>::dec(b) {
            Ok((g1, n1)) => <RLE<String, u16> as NetworkAdapter>::canon(b) && {
                let b1 = b.skip(n1);
                match <u32 as NetworkAdapter>::dec(b1) {
                    Ok((g2, n2)) => <u32 as NetworkAdapter>::canon(b1) && {
                        let b2 = b1.skip(n2);
                        match <u32 as NetworkAdapter>::dec(b2) {
                            Ok((g3, n3)) => <u32 as NetworkAdapter>::canon(b2) && {
                                let b3 = b2.skip(n3);
                                match <u8 as NetworkAdapter>::dec(b3) {
                                    Ok((g4, n4)) => <u8 as NetworkAdapter>::canon(b3) && {
                                        let b4 = b3.skip(n4);
                                        match <RLE<String, u16> as NetworkAdapter>::dec(b4) {
                                            Ok((g5, n5)) => <RLE<String, u16> as NetworkAdapter>::canon(b4) && {
                                                let b5 = b4.skip(n5);
                                                match <RLE<String, u16> as NetworkAdapter>::dec(b5) {
                                                    Ok((g6, n6)) => <RLE<String, u16> as NetworkAdapter>::canon(b5) && {
                                                        let b6 = b5.skip(n6);
                                                        match <RLE<String, u16> as NetworkAdapter>::dec(b6) {
                                                            Ok((g7, n7)) => <RLE<String, u16> as NetworkAdapter>::canon(b6) && {
                                                                let b7 = b6.skip(n7);
                                                                match <bool as NetworkAdapter>::dec(b7) {
                                                                    Ok((g8, n8)) => <bool as NetworkAdapter>::canon(b7) && {
                                                                        true
                                                                    },
                                                                    Err(e) => true,
                                                                }
                                                            },
                                                            Err(e) => true,
                                                        }
                                                    },
                                                    Err(e) => true,
                                                }
                                            },
                                            Err(e) => true,
                                        }
                                    },
                                    Err(e) => true,
                                }
                            },
                            Err(e) => true,
                        }
                    },
                    Err(e) => true,
                }
            },
            Err(e) => true,
        }
    }

    #[verifier::rlimit(100)]
    #[verifier::spinoff_prover]
    fn get_be(r: &mut Reader) -> (res: Result<Text, Error>) {
        let ghost b = old(r).remaining_bytes();
        let save = r.position();
        let x1 = match <RLE<String, u16> as NetworkAdapter>::get_be(r) {
            Ok(v) => v,
            Err(e) => {
                r.seek(save);
                return Err(e);
            },
        };
        let x2 = match <u32 as NetworkAdapter>::get_be(r) {
            Ok(v) => v,
            Err(e) => {
                r.seek(save);
                return Err(e);
            },
        };
        let x3 = match <u32 as NetworkAdapter>::get_be(r) {
            Ok(v) => v,
            Err(e) => {
                r.seek(save);
                return Err(e);
            },
        };
        let x4 = match <u8 as NetworkAdapter>::get_be(r) {
            Ok(v) => v,
            Err(e) => {
                r.seek(save);
                return Err(e);
            },
        };
        let x5 = match <RLE<String, u16> as NetworkAdapter>::get_be(r) {
            Ok(v) => v,
            Err(e) => {
                r.seek(save);
                return Err(e);
            },
        };
        let x6 = match <RLE<String, u16> as NetworkAdapter>::get_be(r) {
            Ok(v) => v,
            Err(e) => {
                r.seek(save);
                return Err(e);
            },
        };
        let x7 = match <RLE<String, u16> as NetworkAdapter>::get_be(r) {
            Ok(v) => v,
            Err(e) => {
                r.seek(save);
                return Err(e);
            },
        };
        let x8 = match <bool as NetworkAdapter>::get_be(r) {
            Ok(v) => v,
            Err(e) => {
                r.seek(save);
                return Err(e);
            },
        };
        proof {
            let (g1, n1) = <RLE<String, u16> as NetworkAdapter>::dec(b)->Ok_0;
            let b1 = b.skip(n1);
            let (g2, n2) = <u32 as NetworkAdapter>::dec(b1)->Ok_0;
            let b2 = b1.skip(n2);
            let (g3, n3) = <u32 as NetworkAdapter>::dec(b2)->Ok_0;
            let b3 = b2.skip(n3);
            let (g4, n4) = <u8 as NetworkAdapter>::dec(b3)->Ok_0;
            let b4 = b3.skip(n4);
            let (g5, n5) = <RLE<String, u16> as NetworkAdapter>::dec(b4)->Ok_0;
            let b5 = b4.skip(n5);
            let (g6, n6) = <RLE<String, u16> as NetworkAdapter>::dec(b5)->Ok_0;
            let b6 = b5.skip(n6);
            let (g7, n7) = <RLE<String, u16> as NetworkAdapter>::dec(b6)->Ok_0;
            let b7 = b6.skip(n7);
            let (g8, n8) = <bool as NetworkAdapter>::dec(b7)->Ok_0;
            lemma_skip_skip(b, n1, n2);
            assert(b2 == b.skip(n1 + n2));
            lemma_skip_skip(b, n1 + n2, n3);
            assert(b3 == b.skip(n1 + n2 + n3));
            lemma_skip_skip(b, n1 + n2 + n3, n4);
            assert(b4 == b.skip(n1 + n2 + n3 + n4));
            lemma_skip_skip(b, n1 + n2 + n3 + n4, n5);
            assert(b5 == b.skip(n1 + n2 + n3 + n4 + n5));
            lemma_skip_skip(b, n1 + n2 + n3 + n4 + n5, n6);
            assert(b6 == b.skip(n1 + n2 + n3 + n4 + n5 + n6));
            lemma_skip_skip(b, n1 + n2 + n3 + n4 + n5 + n6, n7);
            assert(b7 == b.skip(n1 + n2 + n3 + n4 + n5 + n6 + n7));
            lemma_skip_skip(b, n1 + n2 + n3 + n4 + n5 + n6 + n7, n8);
            assert(b7.skip(n8) == b.skip(n1 + n2 + n3 + n4 + n5 + n6 + n7 + n8));
        }
        Ok(Text { name: x1, object_id: x2, num_stars: x3, bubble_time: x4, recipient: x5, text: x6, clean_text: x7, is_supporter: x8 })
    }

    #[verifier::rlimit(100)]
    #[verifier::spinoff_prover]
    fn put_be(self, out: &mut Vec<u8>) -> (res: Result<(), Error>) {
        let ghost m = self.model();
        let Text { name, object_id, num_stars, bubble_time, recipient, text, clean_text, is_supporter } = self;
        let ghost e1 = <RLE<String, u16> as NetworkAdapter>::enc_model(m.name);
        let ghost e2 = <u32 as NetworkAdapter>::enc_model(m.object_id);
        let ghost e3 = <u32 as NetworkAdapter>::enc_model(m.num_stars);
        let ghost e4 = <u8 as NetworkAdapter>::enc_model(m.bubble_time);
        let ghost e5 = <RLE<String, u16> as NetworkAdapter>::enc_model(m.recipient);
        let ghost e6 = <RLE<String, u16> as NetworkAdapter>::enc_model(m.text);
        let ghost e7 = <RLE<String, u16> as NetworkAdapter>::enc_model(m.clean_text);
        let ghost e8 = <bool as NetworkAdapter>::enc_model(m.is_supporter);
        let ghost p1 = e1;
        let ghost p2 = p1 + e2;
        let ghost p3 = p2 + e3;
        let ghost p4 = p3 + e4;
        let ghost p5 = p4 + e5;
        let ghost p6 = p5 + e6;
        let ghost p7 = p6 + e7;
        let ghost p8 = p7 + e8;
        let mut tmp: Vec<u8> = Vec::new();
        let ghost o0 = tmp@;
        match name.put_be(&mut tmp) {
            Ok(()) => {},
            Err(e) => {
                return Err(e);
            },
        };
        let ghost o1 = tmp@;
        proof {
            assert(name.model() == m.name);
            assert(o1 == o0 + p1);
        }
        match object_id.put_be(&mut tmp) {
            Ok(()) => {},
            Err(e) => {
                return Err(e);
            },
        };
        let ghost o2 = tmp@;
        proof {
            assert(object_id.model() == m.object_id);
            lemma_seq_assoc(o0, p1, e2);
            assert(o2 == o0 + p2);
        }
        match num_stars.put_be(&mut tmp) {
            Ok(()) => {},
            Err(e) => {
                return Err(e);
            },
        };
        let ghost o3 = tmp@;
        proof {
            assert(num_stars.model() == m.num_stars);
            lemma_seq_assoc(o0, p2, e3);
            assert(o3 == o0 + p3);
        }
        match bubble_time.put_be(&mut tmp) {
            Ok(()) => {},
            Err(e) => {
                return Err(e);
            },
        };
        let ghost o4 = tmp@;
        proof {
            assert(bubble_time.model() == m.bubble_time);
            lemma_seq_assoc(o0, p3, e4);
            assert(o4 == o0 + p4);
        }
        match recipient.put_be(&mut tmp) {
            Ok(()) => {},
            Err(e) => {
                return Err(e);
            },
        };
        let ghost o5 = tmp@;
        proof {
            assert(recipient.model() == m.recipient);
            lemma_seq_assoc(o0, p4, e5);
            assert(o5 == o0 + p5);
        }
        match text.put_be(&mut tmp) {
            Ok(()) => {},
            Err(e) => {
                return Err(e);
            },
        };
        let ghost o6 = tmp@;
        proof {
            assert(text.model() == m.text);
            lemma_seq_assoc(o0, p5, e6);
            assert(o6 == o0 + p6);
        }
        match clean_text.put_be(&mut tmp) {
            Ok(()) => {},
            Err(e) => {
                return Err(e);
            },
        };
        let ghost o7 = tmp@;
        proof {
            assert(clean_text.model() == m.clean_text);
            lemma_seq_assoc(o0, p6, e7);
            assert(o7 == o0 + p7);
        }
        match is_supporter.put_be(&mut tmp) {
            Ok(()) => {},
            Err(e) => {
                return Err(e);
            },
        };
        let ghost o8 = tmp@;
        proof {
            assert(is_supporter.model() == m.is_supporter);
            lemma_seq_assoc(o0, p7, e8);
            assert(o8 == o0 + p8);
        }
        out.append(&mut tmp);
        proof {
            assert(Self::enc_model(m) == p8);
            assert(o0 + p8 =~= p8);
            assert(out@ == old(out)@ + Self::enc_model(m));
        }
        Ok(())
    }

    #[verifier::rlimit(100)]
    #[verifier::spinoff_prover]
    proof fn lemma_dec_enc(m: TextModel, rest: Seq<u8>) {
        let e1 = <RLE<String, u16> as NetworkAdapter>::enc_model(m.name);
        let e2 = <u32 as NetworkAdapter>::enc_model(m.object_id);
        let e3 = <u32 as NetworkAdapter>::enc_model(m.num_stars);
        let e4 = <u8 as NetworkAdapter>::enc_model(m.bubble_time);
        let e5 = <RLE<String, u16> as NetworkAdapter>::enc_model(m.recipient);
        let e6 = <RLE<String, u16> as NetworkAdapter>::enc_model(m.text);
        let e7 = <RLE<String, u16> as NetworkAdapter>::enc_model(m.clean_text);
        let e8 = <bool as NetworkAdapter>::enc_model(m.is_supporter);
        let p1 = e1;
        let p2 = p1 + e2;
        let p3 = p2 + e3;
        let p4 = p3 + e4;
        let p5 = p4 + e5;
        let p6 = p5 + e6;
        let p7 = p6 + e7;
        let p8 = p7 + e8;
        assert(Self::enc_model(m) == p8);
        let r8 = rest;
        let r7 = e8 + r8;
        let r6 = e7 + r7;
        let r5 = e6 + r6;
        let r4 = e5 + r5;
        let r3 = e4 + r4;
        let r2 = e3 + r3;
        let r1 = e2 + r2;
        let b = Self::enc_model(m) + rest;
        lemma_seq_assoc(p7, e8, r8);
        assert(p8 + r8 == p7 + r7);
        lemma_seq_assoc(p6, e7, r7);
        assert(p7 + r7 == p6 + r6);
        lemma_seq_assoc(p5, e6, r6);
        assert(p6 + r6 == p5 + r5);
        lemma_seq_assoc(p4, e5, r5);
        assert(p5 + r5 == p4 + r4);
        lemma_seq_assoc(p3, e4, r4);
        assert(p4 + r4 == p3 + r3);
        lemma_seq_assoc(p2, e3, r3);
        assert(p3 + r3 == p2 + r2);
        lemma_seq_assoc(p1, e2, r2);
        assert(p2 + r2 == p1 + r1);
        assert(b == e1 + r1);
        <RLE<String, u16> as NetworkAdapter>::lemma_dec_enc(m.name, r1);
        <u32 as NetworkAdapter>::lemma_dec_enc(m.object_id, r2);
        <u32 as NetworkAdapter>::lemma_dec_enc(m.num_stars, r3);
        <u8 as NetworkAdapter>::lemma_dec_enc(m.bubble_time, r4);
        <RLE<String, u16> as NetworkAdapter>::lemma_dec_enc(m.recipient, r5);
        <RLE<String, u16> as NetworkAdapter>::lemma_dec_enc(m.text, r6);
        <RLE<String, u16> as NetworkAdapter>::lemma_dec_enc(m.clean_text, r7);
        <bool as NetworkAdapter>::lemma_dec_enc(m.is_supporter, r8);
        let c1 = b.skip(e1.len() as int);
        lemma_skip_concat(e1, r1);
        assert(c1 == r1);
        let c2 = c1.skip(e2.len() as int);
        lemma_skip_concat(e2, r2);
        assert(c2 == r2);
        let c3 = c2.skip(e3.len() as int);
        lemma_skip_concat(e3, r3);
        assert(c3 == r3);
        let c4 = c3.skip(e4.len() as int);
        lemma_skip_concat(e4, r4);
        assert(c4 == r4);
        let c5 = c4.skip(e5.len() as int);
        lemma_skip_concat(e5, r5);
        assert(c5 == r5);
        let c6 = c5.skip(e6.len() as int);
        lemma_skip_concat(e6, r6);
        assert(c6 == r6);
        let c7 = c6.skip(e7.len() as int);
        lemma_skip_concat(e7, r7);
        assert(c7 == r7);
        assert(Self::enc_model(m).len() == e1.len() + e2.len() + e3.len() + e4.len() + e5.len() + e6.len() + e7.len() + e8.len());
        assert(TextModel { name: m.name, object_id: m.object_id, num_stars: m.num_stars, bubble_time: m.bubble_time, recipient: m.recipient, text: m.text, clean_text: m.clean_text, is_supporter: m.is_supporter } =~= m);
    }

    #[verifier::rlimit(100)]
    #[verifier::spinoff_prover]
    proof fn lemma_enc_dec(b: Seq<u8>, m: TextModel, n: int) {
        let (g1, n1) = <RLE<String, u16> as NetworkAdapter>::dec(b)->Ok_0;
        <RLE<String, u16> as NetworkAdapter>::lemma_enc_dec(b, g1, n1);
        let b1 = b.skip(n1);
        let (g2, n2) = <u32 as NetworkAdapter>::dec(b1)->Ok_0;
        <u32 as NetworkAdapter>::lemma_enc_dec(b1, g2, n2);
        let b2 = b1.skip(n2);
        let (g3, n3) = <u32 as NetworkAdapter>::dec(b2)->Ok_0;
        <u32 as NetworkAdapter>::lemma_enc_dec(b2, g3, n3);
        let b3 = b2.skip(n3);
        let (g4, n4) = <u8 as NetworkAdapter>::dec(b3)->Ok_0;
        <u8 as NetworkAdapter>::lemma_enc_dec(b3, g4, n4);
        let b4 = b3.skip(n4);
        let (g5, n5) = <RLE<String, u16> as NetworkAdapter>::dec(b4)->Ok_0;
        <RLE<String, u16> as NetworkAdapter>::lemma_enc_dec(b4, g5, n5);
        let b5 = b4.skip(n5);
        let (g6, n6) = <RLE<String, u16> as NetworkAdapter>::dec(b5)->Ok_0;
        <RLE<String, u16> as NetworkAdapter>::lemma_enc_dec(b5, g6, n6);
        let b6 = b5.skip(n6);
        let (g7, n7) = <RLE<String, u16> as NetworkAdapter>::dec(b6)->Ok_0;
        <RLE<String, u16> as NetworkAdapter>::lemma_enc_dec(b6, g7, n7);
        let b7 = b6.skip(n7);
        let (g8, n8) = <bool as NetworkAdapter>::dec(b7)->Ok_0;
        <bool as NetworkAdapter>::lemma_enc_dec(b7, g8, n8);
        lemma_skip_skip(b, n1, n2);
        assert(b2 == b.skip(n1 + n2));
        lemma_skip_skip(b, n1 + n2, n3);
        assert(b3 == b.skip(n1 + n2 + n3));
        lemma_skip_skip(b, n1 + n2 + n3, n4);
        assert(b4 == b.skip(n1 + n2 + n3 + n4));
        lemma_skip_skip(b, n1 + n2 + n3 + n4, n5);
        assert(b5 == b.skip(n1 + n2 + n3 + n4 + n5));
        lemma_skip_skip(b, n1 + n2 + n3 + n4 + n5, n6);
        assert(b6 == b.skip(n1 + n2 + n3 + n4 + n5 + n6));
        lemma_skip_skip(b, n1 + n2 + n3 + n4 + n5 + n6, n7);
        assert(b7 == b.skip(n1 + n2 + n3 + n4 + n5 + n6 + n7));
        assert(n == n1 + n2 + n3 + n4 + n5 + n6 + n7 + n8);
        assert(m.name == g1);
        assert(m.object_id == g2);
        assert(m.num_stars == g3);
        assert(m.bubble_time == g4);
        assert(m.recipient == g5);
        assert(m.text == g6);
        assert(m.clean_text == g7);
        assert(m.is_supporter == g8);
        if Self::canon(b) {
            let s1 = n1;
            let s2 = s1 + n2;
            let s3 = s2 + n3;
            let s4 = s3 + n4;
            let s5 = s4 + n5;
            let s6 = s5 + n6;
            let s7 = s6 + n7;
            let s8 = s7 + n8;
            let q1 = <RLE<String, u16> as NetworkAdapter>::enc_model(m.name);
            assert(q1 == b.take(s1));
            lemma_take_concat(b, s1, n2);
            let q2 = q1 + <u32 as NetworkAdapter>::enc_model(m.object_id);
            assert(q2 == b.take(s2));
            lemma_take_concat(b, s2, n3);
            let q3 = q2 + <u32 as NetworkAdapter>::enc_model(m.num_stars);
            assert(q3 == b.take(s3));
            lemma_take_concat(b, s3, n4);
            let q4 = q3 + <u8 as NetworkAdapter>::enc_model(m.bubble_time);
            assert(q4 == b.take(s4));
            lemma_take_concat(b, s4, n5);
            let q5 = q4 + <RLE<String, u16> as NetworkAdapter>::enc_model(m.recipient);
            assert(q5 == b.take(s5));
            lemma_take_concat(b, s5, n6);
            let q6 = q5 + <RLE<String, u16> as NetworkAdapter>::enc_model(m.text);
            assert(q6 == b.take(s6));
            lemma_take_concat(b, s6, n7);
            let q7 = q6 + <RLE<String, u16> as NetworkAdapter>::enc_model(m.clean_text);
            assert(q7 == b.take(s7));
            lemma_take_concat(b, s7, n8);
            let q8 = q7 + <bool as NetworkAdapter>::enc_model(m.is_supporter);
            assert(q8 == b.take(s8));
            assert(Self::enc_model(m) == q8);
            assert(Self::enc_model(m) == b.take(n));
        }
    }
}

#[verifier::ext_equal]
#[derive(Debug, PartialEq, Clone)]
pub struct TradeAccepted {
    pub my_offer: RLE<Vec<bool>, u16>,
    pub your_offer: RLE<Vec<bool>, u16>,
}

/// The mathematical model of a decoded `TradeAccepted`.
#[verifier::ext_equal]
pub struct TradeAcceptedModel {
    pub my_offer: Seq<bool>,
    pub your_offer: Seq<bool>,
}

impl NetworkAdapter for TradeAccepted {
    type Model = TradeAcceptedModel;

    open spec fn model(self) -> TradeAcceptedModel {
        TradeAcceptedModel {
            my_offer: self.my_offer.model(),
            your_offer: self.your_offer.model(),
        }
    }

    open spec fn enc_model(m: TradeAcceptedModel) -> Seq<u8> {
        <RLE<Vec<bool>, u16> as NetworkAdapter>::enc_model(m.my_offer) + <RLE<Vec<bool>, u16> as NetworkAdapter>::enc_model(m.your_offer)
    }

    open spec fn valid_model(m: TradeAcceptedModel) -> bool {
        <RLE<Vec<bool>, u16> as NetworkAdapter>::valid_model(m.my_offer) && <RLE<Vec<bool>, u16> as NetworkAdapter>::valid_model(m.your_offer)
    }

    closed spec fn dec(b: Seq<u8>) -> Result<(TradeAcceptedModel, int), Error> {
        match <RLE<Vec<bool>, u16> as NetworkAdapter>::dec(b) {
            Ok((g1, n1)) => {
                let b1 = b.skip(n1);
                match <RLE<Vec<bool>, u16> as NetworkAdapter>::dec(b1) {
                    Ok((g2, n2)) => {
                        Ok((TradeAcceptedModel { my_offer: g1, your_offer: g2 }, n1 + n2))
                    },
                    Err(e) => Err(e),
                }
            },
            Err(e) => Err(e),
        }
    }

    closed spec fn canon(b: Seq<u8>) -> bool {
        match <RLE<Vec<bool>, u16> as NetworkAdapter>::dec(b) {
            Ok((g1, n1)) => <RLE<Vec<bool>, u16> as NetworkAdapter>::canon(b) && {
                let b1 = b.skip(n1);
                match <RLE<Vec<bool>, u16> as NetworkAdapter>::dec(b1) {
                    Ok((g2, n2)) => <RLE<Vec<bool>, u16> as NetworkAdapter>::canon(b1) && {
                        true
                    },
                    Err(e) => true,
                }
            },
            Err(e) => true,
        }
    }

    fn get_be(r: &mut Reader) -> (res: Result<TradeAccepted, Error>) {
        let ghost b = old(r).remaining_bytes();
        let save = r.position();
        let x1 = match <RLE<Vec<bool>, u16> as NetworkAdapter>::get_be(r) {
            Ok(v) => v,
            Err(e) => {
                r.seek(save);
                return Err(e);
            },
        };
        let x2 = match <RLE<Vec<bool>, u16> as NetworkAdapter>::get_be(r) {
            Ok(v) => v,
            Err(e) => {
                r.seek(save);
                return Err(e);
            },
        };
        proof {
            let (g1, n1) = <RLE<Vec<bool>, u16> as NetworkAdapter>::dec(b)->Ok_0;
            let b1 = b.skip(n1);
            let (g2, n2) = <RLE<Vec<bool>, u16> as NetworkAdapter>::dec(b1)->Ok_0;
            lemma_skip_skip(b, n1, n2);
            assert(b1.skip(n2) == b.skip(n1 + n2));
        }
        Ok(TradeAccepted { my_offer: x1, your_offer: x2 })
    }

    fn put_be(self, out: &mut Vec<u8>) -> (res: Result<(), Error>) {
        let ghost m = self.model();
        let TradeAccepted { my_offer, your_offer } = self;
        let ghost e1 = <RLE<Vec<bool>, u16> as NetworkAdapter>::enc_model(m.my_offer);
        let ghost e2 = <RLE<Vec<bool>, u16> as NetworkAdapter>::enc_model(m.your_offer);
        let ghost p1 = e1;
        let ghost p2 = p1 + e2;
        let mut tmp: Vec<u8> = Vec::new();
        let ghost o0 = tmp@;
        match my_offer.put_be(&mut tmp) {
            Ok(()) => {},
            Err(e) => {
                return Err(e);
            },
        };
        let ghost o1 = tmp@;
        proof {
            assert(my_offer.model() == m.my_offer);
            assert(o1 == o0 + p1);
        }
        match your_offer.put_be(&mut tmp) {
            Ok(()) => {},
            Err(e) => {
                return Err(e);
            },
        };
        let ghost o2 = tmp@;
        proof {
            assert(your_offer.model() == m.your_offer);
            lemma_seq_assoc(o0, p1, e2);
            assert(o2 == o0 + p2);
        }
        out.append(&mut tmp);
        proof {
            assert(Self::enc_model(m) == p2);
            assert(o0 + p2 =~= p2);
            assert(out@ == old(out)@ + Self::enc_model(m));
        }
        Ok(())
    }

    proof fn lemma_dec_enc(m: TradeAcceptedModel, rest: Seq<u8>) {
        let e1 = <RLE<Vec<bool>, u16> as NetworkAdapter>::enc_model(m.my_offer);
        let e2 = <RLE<Vec<bool>, u16> as NetworkAdapter>::enc_model(m.your_offer);
        let p1 = e1;
        let p2 = p1 + e2;
        assert(Self::enc_model(m) == p2);
        let r2 = rest;
        let r1 = e2 + r2;
        let b = Self::enc_model(m) + rest;
        lemma_seq_assoc(p1, e2, r2);
        assert(p2 + r2 == p1 + r1);
        assert(b == e1 + r1);
        <RLE<Vec<bool>, u16> as NetworkAdapter>::lemma_dec_enc(m.my_offer, r1);
        <RLE<Vec<bool>, u16> as NetworkAdapter>::lemma_dec_enc(m.your_offer, r2);
        let c1 = b.skip(e1.len() as int);
        lemma_skip_concat(e1, r1);
        assert(c1 == r1);
        assert(Self::enc_model(m).len() == e1.len() + e2.len());
        assert(TradeAcceptedModel { my_offer: m.my_offer, your_offer: m.your_offer } =~= m);
    }

    proof fn lemma_enc_dec(b: Seq<u8>, m: TradeAcceptedModel, n: int) {
        let (g1, n1) = <RLE<Vec<bool>, u16> as NetworkAdapter>::dec(b)->Ok_0;
        <RLE<Vec<bool>, u16> as NetworkAdapter>::lemma_enc_dec(b, g1, n1);
        let b1 = b.skip(n1);
        let (g2, n2) = <RLE<Vec<bool>, u16> as NetworkAdapter>::dec(b1)->Ok_0;
        <RLE<Vec<bool>, u16> as NetworkAdapter>::lemma_enc_dec(b1, g2, n2);
        assert(n == n1 + n2);
        assert(m.my_offer == g1);
        assert(m.your_offer == g2);
        if Self::canon(b) {
            let s1 = n1;
            let s2 = s1 + n2;
            let q1 = <RLE<Vec<bool>, u16> as NetworkAdapter>::enc_model(m.my_offer);
            assert(q1 == b.take(s1));
            lemma_take_concat(b, s1, n2);
            let q2 = q1 + <RLE<Vec<bool>, u16> as NetworkAdapter>::enc_model(m.your_offer);
            assert(q2 == b.take(s2));
            assert(Self::enc_model(m) == q2);
            assert(Self::enc_model(m) == b.take(n));
        }
    }
}

#[verifier::ext_equal]
#[derive(Debug, PartialEq, Clone)]
pub struct TradeChanged {
    pub offer: RLE<Vec<bool>, u16>,
}

/// The mathematical model of a decoded `TradeChanged`.
#[verifier::ext_equal]
pub struct TradeChangedModel {
    pub offer: Seq<bool>,
}

impl NetworkAdapter for TradeChanged {
    type Model = TradeChangedModel;

    open spec fn model(self) -> TradeChangedModel {
        TradeChangedModel {
            offer: self.offer.model(),
        }
    }

    open spec fn enc_model(m: TradeChangedModel) -> Seq<u8> {
        <RLE<Vec<bool>, u16> as NetworkAdapter>::enc_model(m.offer)
    }

    open spec fn valid_model(m: TradeChangedModel) -> bool {
        <RLE<Vec<bool>, u16> as NetworkAdapter>::valid_model(m.offer)
    }

    closed spec fn dec(b: Seq<u8>) -> Result<(TradeChangedModel, int), Error> {
        match <RLE<Vec<bool>, u16> as NetworkAdapter>::dec(b) {
            Ok((g1, n1)) => {
                Ok((TradeChangedModel { offer: g1 }, n1))
            },
            Err(e) => Err(e),
        }
    }

    closed spec fn canon(b: Seq<u8>) -> bool {
        match <RLE<Vec<bool>, u16> as NetworkAdapter>::dec(b) {
            Ok((g1, n1)) => <RLE<Vec<bool>, u16> as NetworkAdapter>::canon(b) && {
                true
            },
            Err(e) => true,
        }
    }

    fn get_be(r: &mut Reader) -> (res: Result<TradeChanged, Error>) {
        let ghost b = old(r).remaining_bytes();
        let save = r.position();
        let x1 = match <RLE<Vec<bool>, u16> as NetworkAdapter>::get_be(r) {
            Ok(v) => v,
            Err(e) => {
                r.seek(save);
                return Err(e);
            },
        };
        proof {
            let (g1, n1) = <RLE<Vec<bool>, u16> as NetworkAdapter>::dec(b)->Ok_0;
        }
        Ok(TradeChanged { offer: x1 })
    }

    fn put_be(self, out: &mut Vec<u8>) -> (res: Result<(), Error>) {
        let ghost m = self.model();
        let TradeChanged { offer } = self;
        let ghost e1 = <RLE<Vec<bool>, u16> as NetworkAdapter>::enc_model(m.offer);
        let ghost p1 = e1;
        let mut tmp: Vec<u8> = Vec::new();
        let ghost o0 = tmp@;
        match offer.put_be(&mut tmp) {
            Ok(()) => {},
            Err(e) => {
                return Err(e);
            },
        };
        let ghost o1 = tmp@;
        proof {
            assert(offer.model() == m.offer);
            assert(o1 == o0 + p1);
        }
        out.append(&mut tmp);
        proof {
            assert(Self::enc_model(m) == p1);
            assert(o0 + p1 =~= p1);
            assert(out@ == old(out)@ + Self::enc_model(m));
        }
        Ok(())
    }

    proof fn lemma_dec_enc(m: TradeChangedModel, rest: Seq<u8>) {
        let e1 = <RLE<Vec<bool>, u16> as NetworkAdapter>::enc_model(m.offer);
        let p1 = e1;
        assert(Self::enc_model(m) == p1);
        let r1 = rest;
        let b = Self::enc_model(m) + rest;
        assert(b == e1 + r1);
        <RLE<Vec<bool>, u16> as NetworkAdapter>::lemma_dec_enc(m.offer, r1);
        assert(Self::enc_model(m).len() == e1.len());
        assert(TradeChangedModel { offer: m.offer } =~= m);
    }

    proof fn lemma_enc_dec(b: Seq<u8>, m: TradeChangedModel, n: int) {
        let (g1, n1) = <RLE<Vec<bool>, u16> as NetworkAdapter>::dec(b)->Ok_0;
        <RLE<Vec<bool>, u16> as NetworkAdapter>::lemma_enc_dec(b, g1, n1);
        assert(n == n1);
        assert(m.offer == g1);
        if Self::canon(b) {
            let s1 = n1;
            let q1 = <RLE<Vec<bool>, u16> as NetworkAdapter>::enc_model(m.offer);
            assert(q1 == b.take(s1));
            assert(Self::enc_model(m) == q1);
            assert(Self::enc_model(m) == b.take(n));
        }
    }
}

#[verifier::ext_equal]
#[derive(Debug, PartialEq, Clone)]
pub struct TradeDone {
    pub code: u32,
    pub description: RLE<String, u16>,
}

/// The mathematical model of a decoded `TradeDone`.
#[verifier::ext_equal]
pub struct TradeDoneModel {
    pub code: u32,
    pub description: Seq<char>,
}

impl NetworkAdapter for TradeDone {
    type Model = TradeDoneModel;

    open spec fn model(self) -> TradeDoneModel {
        TradeDoneModel {
            code: self.code.model(),
            description: self.description.model(),
        }
    }

    open spec fn enc_model(m: TradeDoneModel) -> Seq<u8> {
        <u32 as NetworkAdapter>::enc_model(m.code) + <RLE<String, u16> as NetworkAdapter>::enc_model(m.description)
    }

    open spec fn valid_model(m: TradeDoneModel) -> bool {
        <u32 as NetworkAdapter>::valid_model(m.code) && <RLE<String, u16> as NetworkAdapter>::valid_model(m.description)
    }

    closed spec fn dec(b: Seq<u8>) -> Result<(TradeDoneModel, int), Error> {
        match <u32 as NetworkAdapter>::dec(b) {
            Ok((g1, n1)) => {
                let b1 = b.skip(n1);
                match <RLE<String, u16> as NetworkAdapter>::dec(b1) {
                    Ok((g2, n2)) => {
                        Ok((TradeDoneModel { code: g1, description: g2 }, n1 + n2))
                    },
                    Err(e) => Err(e),
                }
            },
            Err(e) => Err(e),
        }
    }

    closed spec fn canon(b: Seq<u8>) -> bool {
        match <u32 as NetworkAdapter>::dec(b) {
            Ok((g1, n1)) => <u32 as NetworkAdapter>::canon(b) && {
                let b1 = b.skip(n1);
                match <RLE<String, u16> as NetworkAdapter>::dec(b1) {
                    Ok((g2, n2)) => <RLE<String, u16> as NetworkAdapter>::canon(b1) && {
                        true
                    },
                    Err(e) => true,
                }
            },
            Err(e) => true,
        }
    }

    fn get_be(r: &mut Reader) -> (res: Result<TradeDone, Error>) {
        let ghost b = old(r).remaining_bytes();
        let save = r.position();
        let x1 = match <u32 as NetworkAdapter>::get_be(r) {
            Ok(v) => v,
            Err(e) => {
                r.seek(save);
                return Err(e);
            },
        };
        let x2 = match <RLE<String, u16> as NetworkAdapter>::get_be(r) {
            Ok(v) => v,
            Err(e) => {
                r.seek(save);
                return Err(e);
            },
        };
        proof {
            let (g1, n1) = <u32 as NetworkAdapter>::dec(b)->Ok_0;
            let b1 = b.skip(n1);
            let (g2, n2) = <RLE<String, u16> as NetworkAdapter>::dec(b1)->Ok_0;
            lemma_skip_skip(b, n1, n2);
            assert(b1.skip(n2) == b.skip(n1 + n2));
        }
        Ok(TradeDone { code: x1, description: x2 })
    }

    fn put_be(self, out: &mut Vec<u8>) -> (res: Result<(), Error>) {
        let ghost m = self.model();
        let TradeDone { code, description } = self;
        let ghost e1 = <u32 as NetworkAdapter>::enc_model(m.code);
        let ghost e2 = <RLE<String, u16> as NetworkAdapter>::enc_model(m.description);
        let ghost p1 = e1;
        let ghost p2 = p1 + e2;
        let mut tmp: Vec<u8> = Vec::new();
        let ghost o0 = tmp@;
        match code.put_be(&mut tmp) {
            Ok(()) => {},
            Err(e) => {
                return Err(e);
            },
        };
        let ghost o1 = tmp@;
        proof {
            assert(code.model() == m.code);
            assert(o1 == o0 + p1);
        }
        match description.put_be(&mut tmp) {
            Ok(()) => {},
            Err(e) => {
                return Err(e);
            },
        };
        let ghost o2 = tmp@;
        proof {
            assert(description.model() == m.description);
            lemma_seq_assoc(o0, p1, e2);
            assert(o2 == o0 + p2);
        }
        out.append(&mut tmp);
        proof {
            assert(Self::enc_model(m) == p2);
            assert(o0 + p2 =~= p2);
            assert(out@ == old(out)@ + Self::enc_model(m));
        }
        Ok(())
    }

    proof fn lemma_dec_enc(m: TradeDoneModel, rest: Seq<u8>) {
        let e1 = <u32 as NetworkAdapter>::enc_model(m.code);
        let e2 = <RLE<String, u16> as NetworkAdapter>::enc_model(m.description);
        let p1 = e1;
        let p2 = p1 + e2;
        assert(Self::enc_model(m) == p2);
        let r2 = rest;
        let r1 = e2 + r2;
        let b = Self::enc_model(m) + rest;
        lemma_seq_assoc(p1, e2, r2);
        assert(p2 + r2 == p1 + r1);
        assert(b == e1 + r1);
        <u32 as NetworkAdapter>::lemma_dec_enc(m.code, r1);
        <RLE<String, u16> as NetworkAdapter>::lemma_dec_enc(m.description, r2);
        let c1 = b.skip(e1.len() as int);
        lemma_skip_concat(e1, r1);
        assert(c1 == r1);
        assert(Self::enc_model(m).len() == e1.len() + e2.len());
        assert(TradeDoneModel { code: m.code, description: m.description } =~= m);
    }

    proof fn lemma_enc_dec(b: Seq<u8>, m: TradeDoneModel, n: int) {
        let (g1, n1) = <u32 as NetworkAdapter>::dec(b)->Ok_0;
        <u32 as NetworkAdapter>::lemma_enc_dec(b, g1, n1);
        let b1 = b.skip(n1);
        let (g2, n2) = <RLE<String, u16> as NetworkAdapter>::dec(b1)->Ok_0;
        <RLE<String, u16> as NetworkAdapter>::lemma_enc_dec(b1, g2, n2);
        assert(n == n1 + n2);
        assert(m.code == g1);
        assert(m.description == g2);
        if Self::canon(b) {
            let s1 = n1;
            let s2 = s1 + n2;
            let q1 = <u32 as NetworkAdapter>::enc_model(m.code);
            assert(q1 == b.take(s1));
            lemma_take_concat(b, s1, n2);
            let q2 = q1 + <RLE<String, u16> as NetworkAdapter>::enc_model(m.description);
            assert(q2 == b.take(s2));
            assert(Self::enc_model(m) == q2);
            assert(Self::enc_model(m) == b.take(n));
        }
    }
}

#[verifier::ext_equal]
#[derive(Debug, PartialEq, Clone)]
pub struct TradeRequested {
    pub name: RLE<String, u16>,
}

/// The mathematical model of a decoded `TradeRequested`.
#[verifier::ext_equal]
pub struct TradeRequestedModel {
    pub name: Seq<char>,
}

impl NetworkAdapter for TradeRequested {
    type Model = TradeRequestedModel;

    open spec fn model(self) -> TradeRequestedModel {
        TradeRequestedModel {
            name: self.name.model(),
        }
    }

    open spec fn enc_model(m: TradeRequestedModel) -> Seq<u8> {
        <RLE<String, u16> as NetworkAdapter>::enc_model(m.name)
    }

    open spec fn valid_model(m: TradeRequestedModel) -> bool {
        <RLE<String, u16> as NetworkAdapter>::valid_model(m.name)
    }

    closed spec fn dec(b: Seq<u8>) -> Result<(TradeRequestedModel, int), Error> {
        match <RLE<String, u16> as NetworkAdapter>::dec(b) {
            Ok((g1, n1)) => {
                Ok((TradeRequestedModel { name: g1 }, n1))
            },
            Err(e) => Err(e),
        }
    }

    closed spec fn canon(b: Seq<u8>) -> bool {
        match <RLE<String, u16> as NetworkAdapter>::dec(b) {
            Ok((g1, n1)) => <RLE<String, u16> as NetworkAdapter>::canon(b) && {
                true
            },
            Err(e) => true,
        }
    }

    fn get_be(r: &mut Reader) -> (res: Result<TradeRequested, Error>) {
        let ghost b = old(r).remaining_bytes();
        let save = r.position();
        let x1 = match <RLE<String, u16> as NetworkAdapter>::get_be(r) {
            Ok(v) => v,
            Err(e) => {
                r.seek(save);
                return Err(e);
            },
        };
        proof {
            let (g1, n1) = <RLE<String, u16> as NetworkAdapter>::dec(b)->Ok_0;
        }
        Ok(TradeRequested { name: x1 })
    }

    fn put_be(self, out: &mut Vec<u8>) -> (res: Result<(), Error>) {
        let ghost m = self.model();
        let TradeRequested { name } = self;
        let ghost e1 = <RLE<String, u16> as NetworkAdapter>::enc_model(m.name);
        let ghost p1 = e1;
        let mut tmp: Vec<u8> = Vec::new();
        let ghost o0 = tmp@;
        match name.put_be(&mut tmp) {
            Ok(()) => {},
            Err(e) => {
                return Err(e);
            },
        };
        let ghost o1 = tmp@;
        proof {
            assert(name.model() == m.name);
            assert(o1 == o0 + p1);
        }
        out.append(&mut tmp);
        proof {
            assert(Self::enc_model(m) == p1);
            assert(o0 + p1 =~= p1);
            assert(out@ == old(out)@ + Self::enc_model(m));
        }
        Ok(())
    }

    proof fn lemma_dec_enc(m: TradeRequestedModel, rest: Seq<u8>) {
        let e1 = <RLE<String, u16> as NetworkAdapter>::enc_model(m.name);
        let p1 = e1;
        assert(Self::enc_model(m) == p1);
        let r1 = rest;
        let b = Self::enc_model(m) + rest;
        assert(b == e1 + r1);
        <RLE<String, u16> as NetworkAdapter>::lemma_dec_enc(m.name, r1);
        assert(Self::enc_model(m).len() == e1.len());
        assert(TradeRequestedModel { name: m.name } =~= m);
    }

    proof fn lemma_enc_dec(b: Seq<u8>, m: TradeRequestedModel, n: int) {
        let (g1, n1) = <RLE<String, u16> as NetworkAdapter>::dec(b)->Ok_0;
        <RLE<String, u16> as NetworkAdapter>::lemma_enc_dec(b, g1, n1);
        assert(n == n1);
        assert(m.name == g1);
        if Self::canon(b) {
            let s1 = n1;
            let q1 = <RLE<String, u16> as NetworkAdapter>::enc_model(m.name);
            assert(q1 == b.take(s1));
            assert(Self::enc_model(m) == q1);
            assert(Self::enc_model(m) == b.take(n));
        }
    }
}

#[verifier::ext_equal]
#[derive(Debug, PartialEq, Clone)]
pub struct TradeStart {
    pub my_items: RLE<Vec<TradeItem>, u16>,
    pub your_name: RLE<String, u16>,
    pub your_items: RLE<Vec<TradeItem>, u16>,
}

/// The mathematical model of a decoded `TradeStart`.
#[verifier::ext_equal]
pub struct TradeStartModel {
    pub my_items: Seq<TradeItem>,
    pub your_name: Seq<char>,
    pub your_items: Seq<TradeItem>,
}

impl NetworkAdapter for TradeStart {
    type Model = TradeStartModel;

    open spec fn model(self) -> TradeStartModel {
        TradeStartModel {
            my_items: self.my_items.model(),
            your_name: self.your_name.model(),
            your_items: self.your_items.model(),
        }
    }

    open spec fn enc_model(m: TradeStartModel) -> Seq<u8> {
        <RLE<Vec<TradeItem>, u16> as NetworkAdapter>::enc_model(m.my_items) + <RLE<String, u16> as NetworkAdapter>::enc_model(m.your_name) + <RLE<Vec<TradeItem>, u16> as NetworkAdapter>::enc_model(m.your_items)
    }

    open spec fn valid_model(m: TradeStartModel) -> bool {
        <RLE<Vec<TradeItem>, u16> as NetworkAdapter>::valid_model(m.my_items) && <RLE<String, u16> as NetworkAdapter>::valid_model(m.your_name) && <RLE<Vec<TradeItem>, u16> as NetworkAdapter>::valid_model(m.your_items)
    }

    closed spec fn dec(b: Seq<u8>) -> Result<(TradeStartModel, int), Error> {
        match <RLE<Vec<TradeItem>, u16> as NetworkAdapter>::dec(b) {
            Ok((g1, n1)) => {
                let b1 = b.skip(n1);
                match <RLE<String, u16> as NetworkAdapter>::dec(b1) {
                    Ok((g2, n2)) => {
                        let b2 = b1.skip(n2);
                        match <RLE<Vec<TradeItem>, u16> as NetworkAdapter>::dec(b2) {
                            Ok((g3, n3)) => {
                                Ok((TradeStartModel { my_items: g1, your_name: g2, your_items: g3 }, n1 + n2 + n3))
                            },
                            Err(e) => Err(e),
                        }
                    },
                    Err(e) => Err(e),
                }
            },
            Err(e) => Err(e),
        }
    }

    closed spec fn canon(b: Seq<u8>) -> bool {
        match <RLE<Vec<TradeItem>, u16> as NetworkAdapter>::dec(b) {
            Ok((g1, n1)) => <RLE<Vec<TradeItem>, u16> as NetworkAdapter>::canon(b) && {
                let b1 = b.skip(n1);
                match <RLE<String, u16> as NetworkAdapter>::dec(b1) {
                    Ok((g2, n2)) => <RLE<String, u16> as NetworkAdapter>::canon(b1) && {
                        let b2 = b1.skip(n2);
                        match <RLE<Vec<TradeItem>, u16> as NetworkAdapter>::dec(b2) {
                            Ok((g3, n3)) => <RLE<Vec<TradeItem>, u16> as NetworkAdapter>::canon(b2) && {
                                true
                            },
                            Err(e) => true,
                        }
                    },
                    Err(e) => true,
                }
            },
            Err(e) => true,
        }
    }

    fn get_be(r: &mut Reader) -> (res: Result<TradeStart, Error>) {
        let ghost b = old(r).remaining_bytes();
        let save = r.position();
        let x1 = match <RLE<Vec<TradeItem>, u16> as NetworkAdapter>::get_be(r) {
            Ok(v) => v,
            Err(e) => {
                r.seek(save);
                return Err(e);
            },
        };
        let x2 = match <RLE<String, u16> as NetworkAdapter>::get_be(r) {
            Ok(v) => v,
            Err(e) => {
                r.seek(save);
                return Err(e);
            },
        };
        let x3 = match <RLE<Vec<TradeItem>, u16> as NetworkAdapter>::get_be(r) {
            Ok(v) => v,
            Err(e) => {
                r.seek(save);
                return Err(e);
            },
        };
        proof {
            let (g1, n1) = <RLE<Vec<TradeItem>, u16> as NetworkAdapter>::dec(b)->Ok_0;
            let b1 = b.skip(n1);
            let (g2, n2) = <RLE<String, u16> as NetworkAdapter>::dec(b1)->Ok_0;
            let b2 = b1.skip(n2);
            let (g3, n3) = <RLE<Vec<TradeItem>, u16> as NetworkAdapter>::dec(b2)->Ok_0;
            lemma_skip_skip(b, n1, n2);
            assert(b2 == b.skip(n1 + n2));
            lemma_skip_skip(b, n1 + n2, n3);
            assert(b2.skip(n3) == b.skip(n1 + n2 + n3));
        }
        Ok(TradeStart { my_items: x1, your_name: x2, your_items: x3 })
    }

    fn put_be(self, out: &mut Vec<u8>) -> (res: Result<(), Error>) {
        let ghost m = self.model();
        let TradeStart { my_items, your_name, your_items } = self;
        let ghost e1 = <RLE<Vec<TradeItem>, u16> as NetworkAdapter>::enc_model(m.my_items);
        let ghost e2 = <RLE<String, u16> as NetworkAdapter>::enc_model(m.your_name);
        let ghost e3 = <RLE<Vec<TradeItem>, u16> as NetworkAdapter>::enc_model(m.your_items);
        let ghost p1 = e1;
        let ghost p2 = p1 + e2;
        let ghost p3 = p2 + e3;
        let mut tmp: Vec<u8> = Vec::new();
        let ghost o0 = tmp@;
        match my_items.put_be(&mut tmp) {
            Ok(()) => {},
            Err(e) => {
                return Err(e);
            },
        };
        let ghost o1 = tmp@;
        proof {
            assert(my_items.model() == m.my_items);
            assert(o1 == o0 + p1);
        }
        match your_name.put_be(&mut tmp) {
            Ok(()) => {},
            Err(e) => {
                return Err(e);
            },
        };
        let ghost o2 = tmp@;
        proof {
            assert(your_name.model() == m.your_name);
            lemma_seq_assoc(o0, p1, e2);
            assert(o2 == o0 + p2);
        }
        match your_items.put_be(&mut tmp) {
            Ok(()) => {},
            Err(e) => {
                return Err(e);
            },
        };
        let ghost o3 = tmp@;
        proof {
            assert(your_items.model() == m.your_items);
            lemma_seq_assoc(o0, p2, e3);
            assert(o3 == o0 + p3);
        }
        out.append(&mut tmp);
        proof {
            assert(Self::enc_model(m) == p3);
            assert(o0 + p3 =~= p3);
            assert(out@ == old(out)@ + Self::enc_model(m));
        }
        Ok(())
    }

    proof fn lemma_dec_enc(m: TradeStartModel, rest: Seq<u8>) {
        let e1 = <RLE<Vec<TradeItem>, u16> as NetworkAdapter>::enc_model(m.my_items);
        let e2 = <RLE<String, u16> as NetworkAdapter>::enc_model(m.your_name);
        let e3 = <RLE<Vec<TradeItem>, u16> as NetworkAdapter>::enc_model(m.your_items);
        let p1 = e1;
        let p2 = p1 + e2;
        let p3 = p2 + e3;
        assert(Self::enc_model(m) == p3);
        let r3 = rest;
        let r2 = e3 + r3;
        let r1 = e2 + r2;
        let b = Self::enc_model(m) + rest;
        lemma_seq_assoc(p2, e3, r3);
        assert(p3 + r3 == p2 + r2);
        lemma_seq_assoc(p1, e2, r2);
        assert(p2 + r2 == p1 + r1);
        assert(b == e1 + r1);
        <RLE<Vec<TradeItem>, u16> as NetworkAdapter>::lemma_dec_enc(m.my_items, r1);
        <RLE<String, u16> as NetworkAdapter>::lemma_dec_enc(m.your_name, r2);
        <RLE<Vec<TradeItem>, u16> as NetworkAdapter>::lemma_dec_enc(m.your_items, r3);
        let c1 = b.skip(e1.len() as int);
        lemma_skip_concat(e1, r1);
        assert(c1 == r1);
        let c2 = c1.skip(e2.len() as int);
        lemma_skip_concat(e2, r2);
        assert(c2 == r2);
        assert(Self::enc_model(m).len() == e1.len() + e2.len() + e3.len());
        assert(TradeStartModel { my_items: m.my_items, your_name: m.your_name, your_items: m.your_items } =~= m);
    }

    proof fn lemma_enc_dec(b: Seq<u8>, m: TradeStartModel, n: int) {
        let (g1, n1) = <RLE<Vec<TradeItem>, u16> as NetworkAdapter>::dec(b)->Ok_0;
        <RLE<Vec<TradeItem>, u16> as NetworkAdapter>::lemma_enc_dec(b, g1, n1);
        let b1 = b.skip(n1);
        let (g2, n2) = <RLE<String, u16> as NetworkAdapter>::dec(b1)->Ok_0;
        <RLE<String, u16> as NetworkAdapter>::lemma_enc_dec(b1, g2, n2);
        let b2 = b1.skip(n2);
        let (g3, n3) = <RLE<Vec<TradeItem>, u16> as NetworkAdapter>::dec(b2)->Ok_0;
        <RLE<Vec<TradeItem>, u16> as NetworkAdapter>::lemma_enc_dec(b2, g3, n3);
        lemma_skip_skip(b, n1, n2);
        assert(b2 == b.skip(n1 + n2));
        assert(n == n1 + n2 + n3);
        assert(m.my_items == g1);
        assert(m.your_name == g2);
        assert(m.your_items == g3);
        if Self::canon(b) {
            let s1 = n1;
            let s2 = s1 + n2;
            let s3 = s2 + n3;
            let q1 = <RLE<Vec<TradeItem>, u16> as NetworkAdapter>::enc_model(m.my_items);
            assert(q1 == b.take(s1));
            lemma_take_concat(b, s1, n2);
            let q2 = q1 + <RLE<String, u16> as NetworkAdapter>::enc_model(m.your_name);
            assert(q2 == b.take(s2));
            lemma_take_concat(b, s2, n3);
            let q3 = q2 + <RLE<Vec<TradeItem>, u16> as NetworkAdapter>::enc_model(m.your_items);
            assert(q3 == b.take(s3));
            assert(Self::enc_model(m) == q3);
            assert(Self::enc_model(m) == b.take(n));
        }
    }
}

#[verifier::ext_equal]
#[derive(Debug, PartialEq, Clone)]
pub struct Update {
    pub tiles: RLE<Vec<GroundTileData>, u16>,
    pub new_objs: RLE<Vec<ObjectData>, u16>,
    pub drops: RLE<Vec<u32>, u16>,
}

/// The mathematical model of a decoded `Update`.
#[verifier::ext_equal]
pub struct UpdateModel {
    pub tiles: Seq<GroundTileData>,
    pub new_objs: Seq<ObjectDataModel>,
    pub drops: Seq<u32>,
}

impl NetworkAdapter for Update {
    type Model = UpdateModel;

    open spec fn model(self) -> UpdateModel {
        UpdateModel {
            tiles: self.tiles.model(),
            new_objs: self.new_objs.model(),
            drops: self.drops.model(),
        }
    }

    open spec fn enc_model(m: UpdateModel) -> Seq<u8> {
        <RLE<Vec<GroundTileData>, u16> as NetworkAdapter>::enc_model(m.tiles) + <RLE<Vec<ObjectData>, u16> as NetworkAdapter>::enc_model(m.new_objs) + <RLE<Vec<u32>, u16> as NetworkAdapter>::enc_model(m.drops)
    }

    open spec fn valid_model(m: UpdateModel) -> bool {
        <RLE<Vec<GroundTileData>, u16> as NetworkAdapter>::valid_model(m.tiles) && <RLE<Vec<ObjectData>, u16> as NetworkAdapter>::valid_model(m.new_objs) && <RLE<Vec<u32>, u16> as NetworkAdapter>::valid_model(m.drops)
    }

    closed spec fn dec(b: Seq<u8>) -> Result<(UpdateModel, int), Error> {
        match <RLE<Vec<GroundTileData>, u16> as NetworkAdapter>::dec(b) {
            Ok((g1, n1)) => {
                let b1 = b.skip(n1);
                match <RLE<Vec<ObjectData>, u16> as NetworkAdapter>::dec(b1) {
                    Ok((g2, n2)) => {
                        let b2 = b1.skip(n2);
                        match <RLE<Vec<u32>, u16> as NetworkAdapter>::dec(b2) {
                            Ok((g3, n3)) => {
                                Ok((UpdateModel { tiles: g1, new_objs: g2, drops: g3 }, n1 + n2 + n3))
                            },
                            Err(e) => Err(e),
                        }
                    },
                    Err(e) => Err(e),
                }
            },
            Err(e) => Err(e),
        }
    }

    closed spec fn canon(b: Seq<u8>) -> bool {
        match <RLE<Vec<GroundTileData>, u16> as NetworkAdapter>::dec(b) {
            Ok((g1, n1)) => <RLE<Vec<GroundTileData>, u16> as NetworkAdapter>::canon(b) && {
                let b1 = b.skip(n1);
                match <RLE<Vec<ObjectData>, u16> as NetworkAdapter>::dec(b1) {
                    Ok((g2, n2)) => <RLE<Vec<ObjectData>, u16> as NetworkAdapter>::canon(b1) && {
                        let b2 = b1.skip(n2);
                        match <RLE<Vec<u32>, u16> as NetworkAdapter>::dec(b2) {
                            Ok((g3, n3)) => <RLE<Vec<u32>, u16> as NetworkAdapter>::canon(b2) && {
                                true
                            },
                            Err(e) => true,
                        }
                    },
                    Err(e) => true,
                }
            },
            Err(e) => true,
        }
    }

    fn get_be(r: &mut Reader) -> (res: Result<Update, Error>) {
        let ghost b = old(r).remaining_bytes();
        let save = r.position();
        let x1 = match <RLE<Vec<GroundTileData>, u16> as NetworkAdapter>::get_be(r) {
            Ok(v) => v,
            Err(e) => {
                r.seek(save);
                return Err(e);
            },
        };
        let x2 = match <RLE<Vec<ObjectData>, u16> as NetworkAdapter>::get_be(r) {
            Ok(v) => v,
            Err(e) => {
                r.seek(save);
                return Err(e);
            },
        };
        let x3 = match <RLE<Vec<u32>, u16> as NetworkAdapter>::get_be(r) {
            Ok(v) => v,
            Err(e) => {
                r.seek(save);
                return Err(e);
            },
        };
        proof {
            let (g1, n1) = <RLE<Vec<GroundTileData>, u16> as NetworkAdapter>::dec(b)->Ok_0;
            let b1 = b.skip(n1);
            let (g2, n2) = <RLE<Vec<ObjectData>, u16> as NetworkAdapter>::dec(b1)->Ok_0;
            let b2 = b1.skip(n2);
            let (g3, n3) = <RLE<Vec<u32>, u16> as NetworkAdapter>::dec(b2)->Ok_0;
            lemma_skip_skip(b, n1, n2);
            assert(b2 == b.skip(n1 + n2));
            lemma_skip_skip(b, n1 + n2, n3);
            assert(b2.skip(n3) == b.skip(n1 + n2 + n3));
        }
        Ok(Update { tiles: x1, new_objs: x2, drops: x3 })
    }

    fn put_be(self, out: &mut Vec<u8>) -> (res: Result<(), Error>) {
        let ghost m = self.model();
        let Update { tiles, new_objs, drops } = self;
        let ghost e1 = <RLE<Vec<GroundTileData>, u16> as NetworkAdapter>::enc_model(m.tiles);
        let ghost e2 = <RLE<Vec<ObjectData>, u16> as NetworkAdapter>::enc_model(m.new_objs);
        let ghost e3 = <RLE<Vec<u32>, u16> as NetworkAdapter>::enc_model(m.drops);
        let ghost p1 = e1;
        let ghost p2 = p1 + e2;
        let ghost p3 = p2 + e3;
        let mut tmp: Vec<u8> = Vec::new();
        let ghost o0 = tmp@;
        match tiles.put_be(&mut tmp) {
            Ok(()) => {},
            Err(e) => {
                return Err(e);
            },
        };
        let ghost o1 = tmp@;
        proof {
            assert(tiles.model() == m.tiles);
            assert(o1 == o0 + p1);
        }
        match new_objs.put_be(&mut tmp) {
            Ok(()) => {},
            Err(e) => {
                return Err(e);
            },
        };
        let ghost o2 = tmp@;
        proof {
            assert(new_objs.model() == m.new_objs);
            lemma_seq_assoc(o0, p1, e2);
            assert(o2 == o0 + p2);
        }
        match drops.put_be(&mut tmp) {
            Ok(()) => {},
            Err(e) => {
                return Err(e);
            },
        };
        let ghost o3 = tmp@;
        proof {
            assert(drops.model() == m.drops);
            lemma_seq_assoc(o0, p2, e3);
            assert(o3 == o0 + p3);
        }
        out.append(&mut tmp);
        proof {
            assert(Self::enc_model(m) == p3);
            assert(o0 + p3 =~= p3);
            assert(out@ == old(out)@ + Self::enc_model(m));
        }
        Ok(())
    }

    proof fn lemma_dec_enc(m: UpdateModel, rest: Seq<u8>) {
        let e1 = <RLE<Vec<GroundTileData>, u16> as NetworkAdapter>::enc_model(m.tiles);
        let e2 = <RLE<Vec<ObjectData>, u16> as NetworkAdapter>::enc_model(m.new_objs);
        let e3 = <RLE<Vec<u32>, u16> as NetworkAdapter>::enc_model(m.drops);
        let p1 = e1;
        let p2 = p1 + e2;
        let p3 = p2 + e3;
        assert(Self::enc_model(m) == p3);
        let r3 = rest;
        let r2 = e3 + r3;
        let r1 = e2 + r2;
        let b = Self::enc_model(m) + rest;
        lemma_seq_assoc(p2, e3, r3);
        assert(p3 + r3 == p2 + r2);
        lemma_seq_assoc(p1, e2, r2);
        assert(p2 + r2 == p1 + r1);
        assert(b == e1 + r1);
        <RLE<Vec<GroundTileData>, u16> as NetworkAdapter>::lemma_dec_enc(m.tiles, r1);
        <RLE<Vec<ObjectData>, u16> as NetworkAdapter>::lemma_dec_enc(m.new_objs, r2);
        <RLE<Vec<u32>, u16> as NetworkAdapter>::lemma_dec_enc(m.drops, r3);
        let c1 = b.skip(e1.len() as int);
        lemma_skip_concat(e1, r1);
        assert(c1 == r1);
        let c2 = c1.skip(e2.len() as int);
        lemma_skip_concat(e2, r2);
        assert(c2 == r2);
        assert(Self::enc_model(m).len() == e1.len() + e2.len() + e3.len());
        assert(UpdateModel { tiles: m.tiles, new_objs: m.new_objs, drops: m.drops } =~= m);
    }

    proof fn lemma_enc_dec(b: Seq<u8>, m: UpdateModel, n: int) {
        let (g1, n1) = <RLE<Vec<GroundTileData>, u16> as NetworkAdapter>::dec(b)->Ok_0;
        <RLE<Vec<GroundTileData>, u16> as NetworkAdapter>::lemma_enc_dec(b, g1, n1);
        let b1 = b.skip(n1);
        let (g2, n2) = <RLE<Vec<ObjectData>, u16> as NetworkAdapter>::dec(b1)->Ok_0;
        <RLE<Vec<ObjectData>, u16> as NetworkAdapter>::lemma_enc_dec(b1, g2, n2);
        let b2 = b1.skip(n2);
        let (g3, n3) = <RLE<Vec<u32>, u16> as NetworkAdapter>::dec(b2)->Ok_0;
        <RLE<Vec<u32>, u16> as NetworkAdapter>::lemma_enc_dec(b2, g3, n3);
        lemma_skip_skip(b, n1, n2);
        assert(b2 == b.skip(n1 + n2));
        assert(n == n1 + n2 + n3);
        assert(m.tiles == g1);
        assert(m.new_objs == g2);
        assert(m.drops == g3);
        if Self::canon(b) {
            let s1 = n1;
            let s2 = s1 + n2;
            let s3 = s2 + n3;
            let q1 = <RLE<Vec<GroundTileData>, u16> as NetworkAdapter>::enc_model(m.tiles);
            assert(q1 == b.take(s1));
            lemma_take_concat(b, s1, n2);
            let q2 = q1 + <RLE<Vec<ObjectData>, u16> as NetworkAdapter>::enc_model(m.new_objs);
            assert(q2 == b.take(s2));
            lemma_take_concat(b, s2, n3);
            let q3 = q2 + <RLE<Vec<u32>, u16> as NetworkAdapter>::enc_model(m.drops);
            assert(q3 == b.take(s3));
            assert(Self::enc_model(m) == q3);
            assert(Self::enc_model(m) == b.take(n));
        }
    }
}

#[verifier::ext_equal]
#[derive(Debug, PartialEq, Clone)]
pub struct VerifyEmail {
}

impl NetworkAdapter for VerifyEmail {
    type Model = VerifyEmail;

    open spec fn model(self) -> VerifyEmail {
        self
    }

    open spec fn enc_model(m: VerifyEmail) -> Seq<u8> {
        Seq::empty()
    }

    open spec fn valid_model(m: VerifyEmail) -> bool {
        true
    }

    closed spec fn dec(b: Seq<u8>) -> Result<(VerifyEmail, int), Error> {
        Ok((VerifyEmail {  }, 0))
    }

    closed spec fn canon(b: Seq<u8>) -> bool {
        true
    }

    fn get_be(r: &mut Reader) -> (res: Result<VerifyEmail, Error>) {
        let ghost b = old(r).remaining_bytes();
        proof {
            assert(b.skip(0) =~= b);
        }
        Ok(VerifyEmail {  })
    }

    fn put_be(self, out: &mut Vec<u8>) -> (res: Result<(), Error>) {
        let ghost m = self.model();
        let VerifyEmail {  } = self;
        let mut tmp: Vec<u8> = Vec::new();
        let ghost o0 = tmp@;
        out.append(&mut tmp);
        proof {
            assert(out@ =~= old(out)@ + Self::enc_model(m));
        }
        Ok(())
    }

    proof fn lemma_dec_enc(m: VerifyEmail, rest: Seq<u8>) {
        assert(m =~= VerifyEmail {  });
    }

    proof fn lemma_enc_dec(b: Seq<u8>, m: VerifyEmail, n: int) {
        assert(m =~= VerifyEmail {  });
        assert(Self::enc_model(m) =~= b.take(0));
    }
}

} // verus!
