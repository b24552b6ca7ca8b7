//! Hand-written adapters for the two messages whose payload shape falls
//! outside the declared-field-list scheme: `EnemyShoot`, which ends in two
//! optional trailing fields, and `Pic`, whose bitmap length is implicit in
//! the two preceding dimension fields (`width * height * 4` bytes).

use crate::adapters::complex::{dec_opt, enc_opt, get_opt, opt_model, put_opt};
use crate::adapters::primitives::F32Bits;
use crate::adapters::{lemma_seq_assoc, Error, Invalid, NetworkAdapter, Reader};
use crate::gamedata::basic::WorldPosData;
use vstd::prelude::*;

verus! {

/// A volley fired by an enemy. The two trailing fields are optional: an
/// older server may omit both, or send only the shot count.
#[verifier::ext_equal]
#[derive(Debug, PartialEq, Clone)]
pub struct EnemyShoot {
    pub bullet_id: u8,
    pub owner_id: u32,
    pub bullet_type: u8,
    pub starting_pos: WorldPosData,
    pub angle: F32Bits,
    pub damage: u16,
    pub num_shots: Option<u8>,
    pub angle_inc: Option<F32Bits>,
}

/// The exact outcome of decoding an `EnemyShoot` payload: six fixed fields,
/// then each optional field is absent exactly when the source is exhausted.
pub open spec fn enemy_shoot_dec(b: Seq<u8>) -> Result<(EnemyShoot, int), Error> {
    match <u8 as NetworkAdapter>::dec(b) {
        Ok((g1, n1)) => {
            let b1 = b.skip(n1);
            match <u32 as NetworkAdapter>::dec(b1) {
                Ok((g2, n2)) => {
                    let b2 = b1.skip(n2);
                    match <u8 as NetworkAdapter>::dec(b2) {
                        Ok((g3, n3)) => {
                            let b3 = b2.skip(n3);
                            match <WorldPosData as NetworkAdapter>::dec(b3) {
                                Ok((g4, n4)) => {
                                    let b4 = b3.skip(n4);
                                    match <F32Bits as NetworkAdapter>::dec(b4) {
                                        Ok((g5, n5)) => {
                                            let b5 = b4.skip(n5);
                                            match <u16 as NetworkAdapter>::dec(b5) {
                                                Ok((g6, n6)) => {
                                                    let b6 = b5.skip(n6);
                                                    match dec_opt::<u8>(b6) {
                                                        Ok((g7, n7)) => {
                                                            let b7 = b6.skip(n7);
                                                            match dec_opt::<F32Bits>(b7) {
                                                                Ok((g8, n8)) => Ok(
                                                                    (
                                                                        EnemyShoot {
                                                                            bullet_id: g1,
                                                                            owner_id: g2,
                                                                            bullet_type: g3,
                                                                            starting_pos: g4,
                                                                            angle: g5,
                                                                            damage: g6,
                                                                            num_shots: g7,
                                                                            angle_inc: g8,
                                                                        },
                                                                        n1 + n2 + n3 + n4 + n5 + n6
                                                                            + n7 + n8,
                                                                    ),
                                                                ),
                                                                Err(e) => Err(e),
                                                            }
                                                        },
                                                        Err(e) => Err(e),
                                                    }
                                                },
                                                Err(e) => Err(e),
                                            }
                                        },
                                        Err(e) => Err(e),
                                    }
                                },
                                Err(e) => Err(e),
                            }
                        },
                        Err(e) => Err(e),
                    }
                },
                Err(e) => Err(e),
            }
        },
        Err(e) => Err(e),
    }
}

/// The payload bytes an `EnemyShoot` encodes to.
pub open spec fn enemy_shoot_enc(m: EnemyShoot) -> Seq<u8> {
    <u8 as NetworkAdapter>::enc_model(m.bullet_id) + <u32 as NetworkAdapter>::enc_model(m.owner_id)
        + <u8 as NetworkAdapter>::enc_model(m.bullet_type) + <WorldPosData as NetworkAdapter>::enc_model(
        m.starting_pos,
    ) + <F32Bits as NetworkAdapter>::enc_model(m.angle) + <u16 as NetworkAdapter>::enc_model(
        m.damage,
    ) + enc_opt::<u8>(m.num_shots) + enc_opt::<F32Bits>(m.angle_inc)
}

/// Whether an `EnemyShoot` can be encoded faithfully: an absent optional
/// field may not be followed by a present one, since the decoder takes
/// absence from exhaustion of the source.
pub open spec fn enemy_shoot_valid(m: EnemyShoot) -> bool {
    m.num_shots matches None ==> m.angle_inc matches None
}

impl EnemyShoot {
    /// Decode an `EnemyShoot` payload from the reader.
    #[verifier::rlimit(100)]
    #[verifier::spinoff_prover]
    pub fn get_be(r: &mut Reader) -> (res: Result<EnemyShoot, Error>)
        ensures
            final(r).all_bytes() == old(r).all_bytes(),
            match enemy_shoot_dec(old(r).remaining_bytes()) {
                Ok((m, u)) => (res matches Ok(v) && v == m) && 0 <= u <= old(
                    r,
                ).remaining_bytes().len() && final(r).remaining_bytes() == old(
                    r,
                ).remaining_bytes().skip(u),
                Err(e) => res == Err::<EnemyShoot, Error>(e) && final(r).remaining_bytes() == old(
                    r,
                ).remaining_bytes(),
            },
    {
        let ghost b = old(r).remaining_bytes();
        let save = r.position();
        let x1 = match <u8 as NetworkAdapter>::get_be(r) {
            Ok(v) => v,
            Err(e) => {
                r.seek(save);
                return Err(e);
            },
        };
        let x2 = match <u32 as NetworkAdapter>::get_be(r) {
            Ok(v) => v,
            Err(e) => {
                r.seek(save);
                return Err(e);
            },
        };
        let x3 = match <u8 as NetworkAdapter>::get_be(r) {
            Ok(v) => v,
            Err(e) => {
                r.seek(save);
                return Err(e);
            },
        };
        let x4 = match <WorldPosData as NetworkAdapter>::get_be(r) {
            Ok(v) => v,
            Err(e) => {
                r.seek(save);
                return Err(e);
            },
        };
        let x5 = match <F32Bits as NetworkAdapter>::get_be(r) {
            Ok(v) => v,
            Err(e) => {
                r.seek(save);
                return Err(e);
            },
        };
        let x6 = match <u16 as NetworkAdapter>::get_be(r) {
            Ok(v) => v,
            Err(e) => {
                r.seek(save);
                return Err(e);
            },
        };
        let x7 = match get_opt::<u8>(r) {
            Ok(v) => v,
            Err(e) => {
                r.seek(save);
                return Err(e);
            },
        };
        let x8 = match get_opt::<F32Bits>(r) {
            Ok(v) => v,
            Err(e) => {
                r.seek(save);
                return Err(e);
            },
        };
        proof {
            let (g1, n1) = <u8 as NetworkAdapter>::dec(b)->Ok_0;
            let b1 = b.skip(n1);
            let (g2, n2) = <u32 as NetworkAdapter>::dec(b1)->Ok_0;
            let b2 = b1.skip(n2);
            let (g3, n3) = <u8 as NetworkAdapter>::dec(b2)->Ok_0;
            let b3 = b2.skip(n3);
            let (g4, n4) = <WorldPosData as NetworkAdapter>::dec(b3)->Ok_0;
            let b4 = b3.skip(n4);
            let (g5, n5) = <F32Bits as NetworkAdapter>::dec(b4)->Ok_0;
            let b5 = b4.skip(n5);
            let (g6, n6) = <u16 as NetworkAdapter>::dec(b5)->Ok_0;
            let b6 = b5.skip(n6);
            let (g7, n7) = dec_opt::<u8>(b6)->Ok_0;
            let b7 = b6.skip(n7);
            let (g8, n8) = dec_opt::<F32Bits>(b7)->Ok_0;
            assert(b2 =~= b.skip(n1 + n2));
            assert(b3 =~= b.skip(n1 + n2 + n3));
            assert(b4 =~= b.skip(n1 + n2 + n3 + n4));
            assert(b5 =~= b.skip(n1 + n2 + n3 + n4 + n5));
            assert(b6 =~= b.skip(n1 + n2 + n3 + n4 + n5 + n6));
            assert(b7 =~= b.skip(n1 + n2 + n3 + n4 + n5 + n6 + n7));
            assert(b7.skip(n8) =~= b.skip(n1 + n2 + n3 + n4 + n5 + n6 + n7 + n8));
            assert(opt_model::<u8>(x7) == g7);
            assert(opt_model::<F32Bits>(x8) == g8);
        }
        Ok(
            EnemyShoot {
                bullet_id: x1,
                owner_id: x2,
                bullet_type: x3,
                starting_pos: x4,
                angle: x5,
                damage: x6,
                num_shots: x7,
                angle_inc: x8,
            },
        )
    }

    /// Encode an `EnemyShoot` payload to `out`. An absent shot count
    /// followed by a present angle increment is rejected: the decoder could
    /// not tell the two apart.
    #[verifier::rlimit(100)]
    #[verifier::spinoff_prover]
    pub fn put_be(self, out: &mut Vec<u8>) -> (res: Result<(), Error>)
        ensures
            res == Ok::<(), Error>(()) <==> enemy_shoot_valid(self),
            enemy_shoot_valid(self) ==> final(out)@ == old(out)@ + enemy_shoot_enc(self),
            !enemy_shoot_valid(self) ==> (res matches Err(Error::InvalidData(_))
                && final(out)@ == old(out)@),
    {
        let ghost m = self;
        let ghost o0 = out@;
        let EnemyShoot {
            bullet_id,
            owner_id,
            bullet_type,
            starting_pos,
            angle,
            damage,
            num_shots,
            angle_inc,
        } = self;
        if num_shots.is_none() && angle_inc.is_some() {
            return Err(Error::InvalidData(Invalid::OptionalGap));
        }
        let ghost e1 = <u8 as NetworkAdapter>::enc_model(m.bullet_id);
        let ghost e2 = <u32 as NetworkAdapter>::enc_model(m.owner_id);
        let ghost e3 = <u8 as NetworkAdapter>::enc_model(m.bullet_type);
        let ghost e4 = <WorldPosData as NetworkAdapter>::enc_model(m.starting_pos);
        let ghost e5 = <F32Bits as NetworkAdapter>::enc_model(m.angle);
        let ghost e6 = <u16 as NetworkAdapter>::enc_model(m.damage);
        let ghost e7 = enc_opt::<u8>(m.num_shots);
        let ghost e8 = enc_opt::<F32Bits>(m.angle_inc);
        let ghost p1 = e1;
        let ghost p2 = p1 + e2;
        let ghost p3 = p2 + e3;
        let ghost p4 = p3 + e4;
        let ghost p5 = p4 + e5;
        let ghost p6 = p5 + e6;
        let ghost p7 = p6 + e7;
        let ghost p8 = p7 + e8;
        let _r1 = bullet_id.put_be(out);
        let ghost o1 = out@;
        proof {
            assert(o1 == o0 + p1);
        }
        let _r2 = owner_id.put_be(out);
        let ghost o2 = out@;
        proof {
            lemma_seq_assoc(o0, p1, e2);
            assert(o2 == o0 + p2);
        }
        let _r3 = bullet_type.put_be(out);
        let ghost o3 = out@;
        proof {
            lemma_seq_assoc(o0, p2, e3);
            assert(o3 == o0 + p3);
        }
        let _r4 = starting_pos.put_be(out);
        let ghost o4 = out@;
        proof {
            lemma_seq_assoc(o0, p3, e4);
            assert(o4 == o0 + p4);
        }
        let _r5 = angle.put_be(out);
        let ghost o5 = out@;
        proof {
            lemma_seq_assoc(o0, p4, e5);
            assert(o5 == o0 + p5);
        }
        let _r6 = damage.put_be(out);
        let ghost o6 = out@;
        proof {
            lemma_seq_assoc(o0, p5, e6);
            assert(o6 == o0 + p6);
        }
        let _r7 = put_opt::<u8>(num_shots, out);
        let ghost o7 = out@;
        proof {
            assert(opt_model::<u8>(m.num_shots) == m.num_shots);
            lemma_seq_assoc(o0, p6, e7);
            assert(o7 == o0 + p7);
        }
        let _r8 = put_opt::<F32Bits>(angle_inc, out);
        proof {
            assert(opt_model::<F32Bits>(m.angle_inc) == m.angle_inc);
            lemma_seq_assoc(o0, p7, e8);
            assert(out@ == o0 + p8);
            assert(enemy_shoot_enc(m) == p8);
        }
        Ok(())
    }
}

/// Law: decoding the encoded payload of a valid `EnemyShoot` yields it
/// back, consuming the whole encoding. Unlike the declared-field adapters
/// this holds only of the exact payload, with nothing following: the
/// trailing optional fields take absence from exhaustion of the source.
#[verifier::rlimit(100)]
#[verifier::spinoff_prover]
pub proof fn lemma_enemy_shoot_dec_enc(m: EnemyShoot)
    requires
        enemy_shoot_valid(m),
    ensures
        enemy_shoot_dec(enemy_shoot_enc(m)) == Ok::<(EnemyShoot, int), Error>(
            (m, enemy_shoot_enc(m).len() as int),
        ),
{
    let e1 = <u8 as NetworkAdapter>::enc_model(m.bullet_id);
    let e2 = <u32 as NetworkAdapter>::enc_model(m.owner_id);
    let e3 = <u8 as NetworkAdapter>::enc_model(m.bullet_type);
    let e4 = <WorldPosData as NetworkAdapter>::enc_model(m.starting_pos);
    let e5 = <F32Bits as NetworkAdapter>::enc_model(m.angle);
    let e6 = <u16 as NetworkAdapter>::enc_model(m.damage);
    let e7 = enc_opt::<u8>(m.num_shots);
    let e8 = enc_opt::<F32Bits>(m.angle_inc);
    let p1 = e1;
    let p2 = p1 + e2;
    let p3 = p2 + e3;
    let p4 = p3 + e4;
    let p5 = p4 + e5;
    let p6 = p5 + e6;
    let p7 = p6 + e7;
    let p8 = p7 + e8;
    assert(enemy_shoot_enc(m) == p8);
    let r8 = Seq::<u8>::empty();
    let r7 = e8 + r8;
    let r6 = e7 + r7;
    let r5 = e6 + r6;
    let r4 = e5 + r5;
    let r3 = e4 + r4;
    let r2 = e3 + r3;
    let r1 = e2 + r2;
    let b = enemy_shoot_enc(m);
    assert(p8 + r8 =~= p8);
    assert(p7 + r7 =~= p8 + r8);
    assert(p6 + r6 =~= p7 + r7);
    assert(p5 + r5 =~= p6 + r6);
    assert(p4 + r4 =~= p5 + r5);
    assert(p3 + r3 =~= p4 + r4);
    assert(p2 + r2 =~= p3 + r3);
    assert(p1 + r1 =~= p2 + r2);
    assert(b == e1 + r1);
    <u8 as NetworkAdapter>::lemma_dec_enc(m.bullet_id, r1);
    <u32 as NetworkAdapter>::lemma_dec_enc(m.owner_id, r2);
    <u8 as NetworkAdapter>::lemma_dec_enc(m.bullet_type, r3);
    <WorldPosData as NetworkAdapter>::lemma_dec_enc(m.starting_pos, r4);
    <F32Bits as NetworkAdapter>::lemma_dec_enc(m.angle, r5);
    <u16 as NetworkAdapter>::lemma_dec_enc(m.damage, r6);
    let c1 = b.skip(e1.len() as int);
    assert(c1 =~= r1);
    let c2 = c1.skip(e2.len() as int);
    assert(c2 =~= r2);
    let c3 = c2.skip(e3.len() as int);
    assert(c3 =~= r3);
    let c4 = c3.skip(e4.len() as int);
    assert(c4 =~= r4);
    let c5 = c4.skip(e5.len() as int);
    assert(c5 =~= r5);
    let c6 = c5.skip(e6.len() as int);
    assert(c6 =~= r6);
    // the optional pair: either both present, only the count, or neither
    match m.num_shots {
        Some(ns) => {
            <u8 as NetworkAdapter>::lemma_dec_enc(ns, r7);
            assert(e7 == <u8 as NetworkAdapter>::enc_model(ns));
            assert(e7.len() == 1);
            assert(r6.len() > 0);
            assert(dec_opt::<u8>(r6) == Ok::<(Option<u8>, int), Error>(
                (m.num_shots, e7.len() as int),
            ));
            let c7 = c6.skip(e7.len() as int);
            assert(c7 =~= r7);
            match m.angle_inc {
                Some(ai) => {
                    <F32Bits as NetworkAdapter>::lemma_dec_enc(ai, r8);
                    assert(e8 + r8 =~= e8);
                    assert(r7.len() > 0);
                    assert(dec_opt::<F32Bits>(r7) == Ok::<(Option<F32Bits>, int), Error>(
                        (m.angle_inc, e8.len() as int),
                    ));
                },
                None => {
                    assert(e8.len() == 0);
                    assert(r7.len() == 0);
                    assert(dec_opt::<F32Bits>(r7) == Ok::<(Option<F32Bits>, int), Error>(
                        (None, 0),
                    ));
                },
            }
        },
        None => {
            assert(m.angle_inc matches None);
            assert(e7.len() == 0 && e8.len() == 0);
            assert(r6.len() == 0);
            assert(dec_opt::<u8>(r6) == Ok::<(Option<u8>, int), Error>((None, 0)));
            let c7 = c6.skip(0);
            assert(c7 =~= r7);
            assert(r7.len() == 0);
            assert(dec_opt::<F32Bits>(r7) == Ok::<(Option<F32Bits>, int), Error>((None, 0)));
        },
    }
    assert(EnemyShoot {
        bullet_id: m.bullet_id,
        owner_id: m.owner_id,
        bullet_type: m.bullet_type,
        starting_pos: m.starting_pos,
        angle: m.angle,
        damage: m.damage,
        num_shots: m.num_shots,
        angle_inc: m.angle_inc,
    } =~= m);
}

/// A bitmap payload. The byte count of `bitmap_data` is not written on the
/// wire: it is `w * h * 4`, derived from the two dimension fields.
#[verifier::ext_equal]
#[derive(Debug, PartialEq, Clone)]
pub struct Pic {
    pub w: u32,
    pub h: u32,
    pub bitmap_data: Vec<u8>,
}

/// The mathematical model of a decoded `Pic`.
#[verifier::ext_equal]
pub struct PicModel {
    pub w: u32,
    pub h: u32,
    pub bitmap_data: Seq<u8>,
}

impl NetworkAdapter for Pic {
    type Model = PicModel;

    open spec fn model(self) -> PicModel {
        PicModel { w: self.w, h: self.h, bitmap_data: self.bitmap_data@ }
    }

    open spec fn enc_model(m: PicModel) -> Seq<u8> {
        <u32 as NetworkAdapter>::enc_model(m.w) + <u32 as NetworkAdapter>::enc_model(m.h)
            + m.bitmap_data
    }

    open spec fn valid_model(m: PicModel) -> bool {
        m.bitmap_data.len() == m.w * m.h * 4
    }

    open spec fn dec(b: Seq<u8>) -> Result<(PicModel, int), Error> {
        match <u32 as NetworkAdapter>::dec(b) {
            Ok((w, n1)) => {
                let b1 = b.skip(n1);
                match <u32 as NetworkAdapter>::dec(b1) {
                    Ok((h, n2)) => {
                        let b2 = b1.skip(n2);
                        let need = w * h * 4;
                        if b2.len() >= need {
                            Ok((PicModel { w, h, bitmap_data: b2.take(need) }, n1 + n2 + need))
                        } else {
                            Err(
                                Error::InsufficientData {
                                    remaining: b2.len() as usize,
                                    needed: if need > usize::MAX {
                                        usize::MAX
                                    } else {
                                        need as usize
                                    },
                                },
                            )
                        }
                    },
                    Err(e) => Err(e),
                }
            },
            Err(e) => Err(e),
        }
    }

    open spec fn canon(b: Seq<u8>) -> bool {
        true
    }

    fn get_be(r: &mut Reader) -> (res: Result<Pic, Error>) {
        let ghost b = old(r).remaining_bytes();
        let save = r.position();
        let w = match <u32 as NetworkAdapter>::get_be(r) {
            Ok(v) => v,
            Err(e) => {
                r.seek(save);
                return Err(e);
            },
        };
        let h = match <u32 as NetworkAdapter>::get_be(r) {
            Ok(v) => v,
            Err(e) => {
                r.seek(save);
                return Err(e);
            },
        };
        proof {
            assert((w as int) * (h as int) * 4 < 0x40000000000000000) by (nonlinear_arith)
                requires
                    (w as int) < 0x100000000,
                    (h as int) < 0x100000000,
                    0 <= w as int,
                    0 <= h as int,
            ;
            assert((w as int) * (h as int) * 4 >= 0) by (nonlinear_arith)
                requires
                    0 <= w as int,
                    0 <= h as int,
            ;
        }
        let need = (w as u128) * (h as u128) * 4;
        let rem = r.remaining();
        if (rem as u128) < need {
            let needed: usize = if need > (usize::MAX as u128) {
                usize::MAX
            } else {
                need as usize
            };
            r.seek(save);
            return Err(Error::InsufficientData { remaining: rem, needed });
        }
        let data = r.read_vec(need as usize);
        proof {
            let (wm, n1) = <u32 as NetworkAdapter>::dec(b)->Ok_0;
            let b1 = b.skip(n1);
            let (hm, n2) = <u32 as NetworkAdapter>::dec(b1)->Ok_0;
            let b2 = b1.skip(n2);
            assert(b2 =~= b.skip(n1 + n2));
            assert(b2.skip(need as int) =~= b.skip(n1 + n2 + need));
        }
        Ok(Pic { w, h, bitmap_data: data })
    }

    fn put_be(self, out: &mut Vec<u8>) -> (res: Result<(), Error>) {
        let ghost m = self.model();
        let ghost o0 = out@;
        let Pic { w, h, bitmap_data } = self;
        proof {
            assert((w as int) * (h as int) * 4 < 0x40000000000000000) by (nonlinear_arith)
                requires
                    (w as int) < 0x100000000,
                    (h as int) < 0x100000000,
                    0 <= w as int,
                    0 <= h as int,
            ;
            assert((w as int) * (h as int) * 4 >= 0) by (nonlinear_arith)
                requires
                    0 <= w as int,
                    0 <= h as int,
            ;
        }
        let need = (w as u128) * (h as u128) * 4;
        let len = bitmap_data.len();
        if (len as u128) != need {
            return Err(Error::InvalidData(Invalid::BitmapSize));
        }
        let _r1 = w.put_be(out);
        let _r2 = h.put_be(out);
        let mut data = bitmap_data;
        out.append(&mut data);
        proof {
            assert(out@ =~= o0 + Self::enc_model(m));
        }
        Ok(())
    }

    proof fn lemma_dec_enc(m: PicModel, rest: Seq<u8>) {
        let e1 = <u32 as NetworkAdapter>::enc_model(m.w);
        let e2 = <u32 as NetworkAdapter>::enc_model(m.h);
        let r1 = e2 + (m.bitmap_data + rest);
        let r2 = m.bitmap_data + rest;
        let b = Self::enc_model(m) + rest;
        assert(b =~= e1 + r1);
        <u32 as NetworkAdapter>::lemma_dec_enc(m.w, r1);
        <u32 as NetworkAdapter>::lemma_dec_enc(m.h, r2);
        let c1 = b.skip(e1.len() as int);
        assert(c1 =~= r1);
        let c2 = c1.skip(e2.len() as int);
        assert(c2 =~= r2);
        let need = m.w * m.h * 4;
        assert(c2.len() >= need);
        assert(c2.take(need) =~= m.bitmap_data);
        assert(Self::enc_model(m).len() == e1.len() + e2.len() + m.bitmap_data.len());
        assert(PicModel { w: m.w, h: m.h, bitmap_data: m.bitmap_data } =~= m);
    }

    proof fn lemma_enc_dec(b: Seq<u8>, m: PicModel, n: int) {
        let (w, n1) = <u32 as NetworkAdapter>::dec(b)->Ok_0;
        <u32 as NetworkAdapter>::lemma_enc_dec(b, w, n1);
        let b1 = b.skip(n1);
        let (h, n2) = <u32 as NetworkAdapter>::dec(b1)->Ok_0;
        <u32 as NetworkAdapter>::lemma_enc_dec(b1, h, n2);
        let b2 = b1.skip(n2);
        let need = w * h * 4;
        assert((w as int) * (h as int) * 4 >= 0) by (nonlinear_arith)
            requires
                0 <= w as int,
                0 <= h as int,
        ;
        assert(m.bitmap_data == b2.take(need));
        assert(n == n1 + n2 + need);
        assert(Self::enc_model(m).len() == n1 + n2 + need);
        assert(b.take(n1) + b1.take(n2) =~= b.take(n1 + n2));
        assert(b.take(n1 + n2) + b2.take(need) =~= b.take(n1 + n2 + need));
        assert(Self::enc_model(m) == b.take(n));
    }
}

} // verus!
