//! `NetworkAdapter` implementations for fixed-width primitive types.
//!
//! All primitives are big-endian and fixed width. Floating-point fields are
//! carried as their IEEE-754 bit patterns (`F32Bits`, `F64Bits`), so the
//! codec moves them without interpreting them. `bool` is one byte: nonzero
//! decodes to true, and true encodes to `1`.

use super::{Error, NetworkAdapter, Reader};
use crate::num_bytes::{
    be_bytes, be_value, lemma_be_bytes_be_value, lemma_be_bytes_len, lemma_be_value_be_bytes,
    lemma_be_value_bound, lemma_pow256_values, put_be_uint,
};
use vstd::prelude::*;

verus! {

/// An IEEE-754 single-precision value carried as its raw bit pattern.
#[derive(Debug, Clone, Copy, PartialEq, Eq, Structural)]
pub struct F32Bits(pub u32);

/// An IEEE-754 double-precision value carried as its raw bit pattern.
#[derive(Debug, Clone, Copy, PartialEq, Eq, Structural)]
pub struct F64Bits(pub u64);

impl NetworkAdapter for u8 {
    type Model = u8;

    open spec fn model(self) -> u8 {
        self
    }

    open spec fn enc_model(m: u8) -> Seq<u8> {
        seq![m]
    }

    open spec fn valid_model(m: u8) -> bool {
        true
    }

    open spec fn dec(b: Seq<u8>) -> Result<(u8, int), Error> {
        if b.len() >= 1 {
            Ok((b[0], 1))
        } else {
            Err(Error::InsufficientData { remaining: b.len() as usize, needed: 1 })
        }
    }

    open spec fn canon(b: Seq<u8>) -> bool {
        true
    }

    fn get_be(r: &mut Reader) -> (res: Result<u8, Error>) {
        let rem = r.remaining();
        if rem < 1 {
            return Err(Error::InsufficientData { remaining: rem, needed: 1 });
        }
        Ok(r.read_byte())
    }

    fn put_be(self, out: &mut Vec<u8>) -> (res: Result<(), Error>) {
        out.push(self);
        proof {
            assert(out@ =~= old(out)@ + Self::enc_model(self));
        }
        Ok(())
    }

    proof fn lemma_dec_enc(m: u8, rest: Seq<u8>) {
    }

    proof fn lemma_enc_dec(b: Seq<u8>, m: u8, n: int) {
        assert(Self::enc_model(m) =~= b.take(n));
    }
}

impl NetworkAdapter for i8 {
    type Model = i8;

    open spec fn model(self) -> i8 {
        self
    }

    open spec fn enc_model(m: i8) -> Seq<u8> {
        seq![m as u8]
    }

    open spec fn valid_model(m: i8) -> bool {
        true
    }

    open spec fn dec(b: Seq<u8>) -> Result<(i8, int), Error> {
        if b.len() >= 1 {
            Ok((b[0] as i8, 1))
        } else {
            Err(Error::InsufficientData { remaining: b.len() as usize, needed: 1 })
        }
    }

    open spec fn canon(b: Seq<u8>) -> bool {
        true
    }

    fn get_be(r: &mut Reader) -> (res: Result<i8, Error>) {
        let rem = r.remaining();
        if rem < 1 {
            return Err(Error::InsufficientData { remaining: rem, needed: 1 });
        }
        Ok(r.read_byte() as i8)
    }

    fn put_be(self, out: &mut Vec<u8>) -> (res: Result<(), Error>) {
        out.push(self as u8);
        proof {
            assert(out@ =~= old(out)@ + Self::enc_model(self));
        }
        Ok(())
    }

    proof fn lemma_dec_enc(m: i8, rest: Seq<u8>) {
        assert(((m as u8) as i8) == m) by (bit_vector);
    }

    proof fn lemma_enc_dec(b: Seq<u8>, m: i8, n: int) {
        let x = b[0];
        assert(((x as i8) as u8) == x) by (bit_vector);
        assert(Self::enc_model(m) =~= b.take(n));
    }
}

impl NetworkAdapter for bool {
    type Model = bool;

    open spec fn model(self) -> bool {
        self
    }

    open spec fn enc_model(m: bool) -> Seq<u8> {
        seq![if m { 1u8 } else { 0u8 }]
    }

    open spec fn valid_model(m: bool) -> bool {
        true
    }

    open spec fn dec(b: Seq<u8>) -> Result<(bool, int), Error> {
        if b.len() >= 1 {
            Ok((b[0] != 0, 1))
        } else {
            Err(Error::InsufficientData { remaining: b.len() as usize, needed: 1 })
        }
    }

    open spec fn canon(b: Seq<u8>) -> bool {
        b.len() >= 1 && b[0] <= 1
    }

    fn get_be(r: &mut Reader) -> (res: Result<bool, Error>) {
        let rem = r.remaining();
        if rem < 1 {
            return Err(Error::InsufficientData { remaining: rem, needed: 1 });
        }
        Ok(r.read_byte() != 0)
    }

    fn put_be(self, out: &mut Vec<u8>) -> (res: Result<(), Error>) {
        out.push(if self { 1 } else { 0 });
        proof {
            assert(out@ =~= old(out)@ + Self::enc_model(self));
        }
        Ok(())
    }

    proof fn lemma_dec_enc(m: bool, rest: Seq<u8>) {
    }

    proof fn lemma_enc_dec(b: Seq<u8>, m: bool, n: int) {
        if Self::canon(b) {
            assert(Self::enc_model(m) =~= b.take(n));
        }
    }
}

impl NetworkAdapter for u16 {
    type Model = u16;

    open spec fn model(self) -> u16 {
        self
    }

    open spec fn enc_model(m: u16) -> Seq<u8> {
        be_bytes(m as nat, 2)
    }

    open spec fn valid_model(m: u16) -> bool {
        true
    }

    open spec fn dec(b: Seq<u8>) -> Result<(u16, int), Error> {
        if b.len() >= 2 {
            Ok((be_value(b.take(2)) as u16, 2))
        } else {
            Err(Error::InsufficientData { remaining: b.len() as usize, needed: 2 })
        }
    }

    open spec fn canon(b: Seq<u8>) -> bool {
        true
    }

    fn get_be(r: &mut Reader) -> (res: Result<u16, Error>) {
        let rem = r.remaining();
        if rem < 2 {
            return Err(Error::InsufficientData { remaining: rem, needed: 2 });
        }
        let w = r.read_be_uint(2);
        proof {
            lemma_pow256_values();
        }
        Ok(w as u16)
    }

    fn put_be(self, out: &mut Vec<u8>) -> (res: Result<(), Error>) {
        put_be_uint(out, self as u64, 2);
        Ok(())
    }

    proof fn lemma_dec_enc(m: u16, rest: Seq<u8>) {
        lemma_be_bytes_len(m as nat, 2);
        lemma_pow256_values();
        lemma_be_value_be_bytes(m as nat, 2);
        assert((Self::enc_model(m) + rest).take(2) =~= Self::enc_model(m));
    }

    proof fn lemma_enc_dec(b: Seq<u8>, m: u16, n: int) {
        lemma_pow256_values();
        lemma_be_value_bound(b.take(2));
        lemma_be_bytes_be_value(b.take(2));
    }
}

impl NetworkAdapter for u32 {
    type Model = u32;

    open spec fn model(self) -> u32 {
        self
    }

    open spec fn enc_model(m: u32) -> Seq<u8> {
        be_bytes(m as nat, 4)
    }

    open spec fn valid_model(m: u32) -> bool {
        true
    }

    open spec fn dec(b: Seq<u8>) -> Result<(u32, int), Error> {
        if b.len() >= 4 {
            Ok((be_value(b.take(4)) as u32, 4))
        } else {
            Err(Error::InsufficientData { remaining: b.len() as usize, needed: 4 })
        }
    }

    open spec fn canon(b: Seq<u8>) -> bool {
        true
    }

    fn get_be(r: &mut Reader) -> (res: Result<u32, Error>) {
        let rem = r.remaining();
        if rem < 4 {
            return Err(Error::InsufficientData { remaining: rem, needed: 4 });
        }
        let w = r.read_be_uint(4);
        proof {
            lemma_pow256_values();
        }
        Ok(w as u32)
    }

    fn put_be(self, out: &mut Vec<u8>) -> (res: Result<(), Error>) {
        put_be_uint(out, self as u64, 4);
        Ok(())
    }

    proof fn lemma_dec_enc(m: u32, rest: Seq<u8>) {
        lemma_be_bytes_len(m as nat, 4);
        lemma_pow256_values();
        lemma_be_value_be_bytes(m as nat, 4);
        assert((Self::enc_model(m) + rest).take(4) =~= Self::enc_model(m));
    }

    proof fn lemma_enc_dec(b: Seq<u8>, m: u32, n: int) {
        lemma_pow256_values();
        lemma_be_value_bound(b.take(4));
        lemma_be_bytes_be_value(b.take(4));
    }
}

impl NetworkAdapter for u64 {
    type Model = u64;

    open spec fn model(self) -> u64 {
        self
    }

    open spec fn enc_model(m: u64) -> Seq<u8> {
        be_bytes(m as nat, 8)
    }

    open spec fn valid_model(m: u64) -> bool {
        true
    }

    open spec fn dec(b: Seq<u8>) -> Result<(u64, int), Error> {
        if b.len() >= 8 {
            Ok((be_value(b.take(8)) as u64, 8))
        } else {
            Err(Error::InsufficientData { remaining: b.len() as usize, needed: 8 })
        }
    }

    open spec fn canon(b: Seq<u8>) -> bool {
        true
    }

    fn get_be(r: &mut Reader) -> (res: Result<u64, Error>) {
        let rem = r.remaining();
        if rem < 8 {
            return Err(Error::InsufficientData { remaining: rem, needed: 8 });
        }
        let w = r.read_be_uint(8);
        proof {
            lemma_pow256_values();
        }
        Ok(w as u64)
    }

    fn put_be(self, out: &mut Vec<u8>) -> (res: Result<(), Error>) {
        put_be_uint(out, self as u64, 8);
        Ok(())
    }

    proof fn lemma_dec_enc(m: u64, rest: Seq<u8>) {
        lemma_be_bytes_len(m as nat, 8);
        lemma_pow256_values();
        lemma_be_value_be_bytes(m as nat, 8);
        assert((Self::enc_model(m) + rest).take(8) =~= Self::enc_model(m));
    }

    proof fn lemma_enc_dec(b: Seq<u8>, m: u64, n: int) {
        lemma_pow256_values();
        lemma_be_value_bound(b.take(8));
        lemma_be_bytes_be_value(b.take(8));
    }
}

impl NetworkAdapter for i16 {
    type Model = i16;

    open spec fn model(self) -> i16 {
        self
    }

    open spec fn enc_model(m: i16) -> Seq<u8> {
        be_bytes((m as u16) as nat, 2)
    }

    open spec fn valid_model(m: i16) -> bool {
        true
    }

    open spec fn dec(b: Seq<u8>) -> Result<(i16, int), Error> {
        if b.len() >= 2 {
            Ok(((be_value(b.take(2)) as u16) as i16, 2))
        } else {
            Err(Error::InsufficientData { remaining: b.len() as usize, needed: 2 })
        }
    }

    open spec fn canon(b: Seq<u8>) -> bool {
        true
    }

    fn get_be(r: &mut Reader) -> (res: Result<i16, Error>) {
        let rem = r.remaining();
        if rem < 2 {
            return Err(Error::InsufficientData { remaining: rem, needed: 2 });
        }
        let w = r.read_be_uint(2);
        proof {
            lemma_pow256_values();
        }
        Ok((w as u16) as i16)
    }

    fn put_be(self, out: &mut Vec<u8>) -> (res: Result<(), Error>) {
        put_be_uint(out, (self as u16) as u64, 2);
        Ok(())
    }

    proof fn lemma_dec_enc(m: i16, rest: Seq<u8>) {
        lemma_be_bytes_len((m as u16) as nat, 2);
        lemma_pow256_values();
        lemma_be_value_be_bytes((m as u16) as nat, 2);
        assert(((m as u16) as i16) == m) by (bit_vector);
        assert((Self::enc_model(m) + rest).take(2) =~= Self::enc_model(m));
    }

    proof fn lemma_enc_dec(b: Seq<u8>, m: i16, n: int) {
        lemma_pow256_values();
        lemma_be_value_bound(b.take(2));
        lemma_be_bytes_be_value(b.take(2));
        let x = be_value(b.take(2)) as u16;
        assert(((x as i16) as u16) == x) by (bit_vector);
    }
}

impl NetworkAdapter for i32 {
    type Model = i32;

    open spec fn model(self) -> i32 {
        self
    }

    open spec fn enc_model(m: i32) -> Seq<u8> {
        be_bytes((m as u32) as nat, 4)
    }

    open spec fn valid_model(m: i32) -> bool {
        true
    }

    open spec fn dec(b: Seq<u8>) -> Result<(i32, int), Error> {
        if b.len() >= 4 {
            Ok(((be_value(b.take(4)) as u32) as i32, 4))
        } else {
            Err(Error::InsufficientData { remaining: b.len() as usize, needed: 4 })
        }
    }

    open spec fn canon(b: Seq<u8>) -> bool {
        true
    }

    fn get_be(r: &mut Reader) -> (res: Result<i32, Error>) {
        let rem = r.remaining();
        if rem < 4 {
            return Err(Error::InsufficientData { remaining: rem, needed: 4 });
        }
        let w = r.read_be_uint(4);
        proof {
            lemma_pow256_values();
        }
        Ok((w as u32) as i32)
    }

    fn put_be(self, out: &mut Vec<u8>) -> (res: Result<(), Error>) {
        put_be_uint(out, (self as u32) as u64, 4);
        Ok(())
    }

    proof fn lemma_dec_enc(m: i32, rest: Seq<u8>) {
        lemma_be_bytes_len((m as u32) as nat, 4);
        lemma_pow256_values();
        lemma_be_value_be_bytes((m as u32) as nat, 4);
        assert(((m as u32) as i32) == m) by (bit_vector);
        assert((Self::enc_model(m) + rest).take(4) =~= Self::enc_model(m));
    }

    proof fn lemma_enc_dec(b: Seq<u8>, m: i32, n: int) {
        lemma_pow256_values();
        lemma_be_value_bound(b.take(4));
        lemma_be_bytes_be_value(b.take(4));
        let x = be_value(b.take(4)) as u32;
        assert(((x as i32) as u32) == x) by (bit_vector);
    }
}

impl NetworkAdapter for i64 {
    type Model = i64;

    open spec fn model(self) -> i64 {
        self
    }

    open spec fn enc_model(m: i64) -> Seq<u8> {
        be_bytes((m as u64) as nat, 8)
    }

    open spec fn valid_model(m: i64) -> bool {
        true
    }

    open spec fn dec(b: Seq<u8>) -> Result<(i64, int), Error> {
        if b.len() >= 8 {
            Ok(((be_value(b.take(8)) as u64) as i64, 8))
        } else {
            Err(Error::InsufficientData { remaining: b.len() as usize, needed: 8 })
        }
    }

    open spec fn canon(b: Seq<u8>) -> bool {
        true
    }

    fn get_be(r: &mut Reader) -> (res: Result<i64, Error>) {
        let rem = r.remaining();
        if rem < 8 {
            return Err(Error::InsufficientData { remaining: rem, needed: 8 });
        }
        let w = r.read_be_uint(8);
        proof {
            lemma_pow256_values();
        }
        Ok((w as u64) as i64)
    }

    fn put_be(self, out: &mut Vec<u8>) -> (res: Result<(), Error>) {
        put_be_uint(out, (self as u64) as u64, 8);
        Ok(())
    }

    proof fn lemma_dec_enc(m: i64, rest: Seq<u8>) {
        lemma_be_bytes_len((m as u64) as nat, 8);
        lemma_pow256_values();
        lemma_be_value_be_bytes((m as u64) as nat, 8);
        assert(((m as u64) as i64) == m) by (bit_vector);
        assert((Self::enc_model(m) + rest).take(8) =~= Self::enc_model(m));
    }

    proof fn lemma_enc_dec(b: Seq<u8>, m: i64, n: int) {
        lemma_pow256_values();
        lemma_be_value_bound(b.take(8));
        lemma_be_bytes_be_value(b.take(8));
        let x = be_value(b.take(8)) as u64;
        assert(((x as i64) as u64) == x) by (bit_vector);
    }
}

impl NetworkAdapter for F32Bits {
    type Model = F32Bits;

    open spec fn model(self) -> F32Bits {
        self
    }

    open spec fn enc_model(m: F32Bits) -> Seq<u8> {
        be_bytes(m.0 as nat, 4)
    }

    open spec fn valid_model(m: F32Bits) -> bool {
        true
    }

    open spec fn dec(b: Seq<u8>) -> Result<(F32Bits, int), Error> {
        if b.len() >= 4 {
            Ok((F32Bits(be_value(b.take(4)) as u32), 4))
        } else {
            Err(Error::InsufficientData { remaining: b.len() as usize, needed: 4 })
        }
    }

    open spec fn canon(b: Seq<u8>) -> bool {
        true
    }

    fn get_be(r: &mut Reader) -> (res: Result<F32Bits, Error>) {
        let rem = r.remaining();
        if rem < 4 {
            return Err(Error::InsufficientData { remaining: rem, needed: 4 });
        }
        let w = r.read_be_uint(4);
        proof {
            lemma_pow256_values();
        }
        Ok(F32Bits(w as u32))
    }

    fn put_be(self, out: &mut Vec<u8>) -> (res: Result<(), Error>) {
        put_be_uint(out, self.0 as u64, 4);
        Ok(())
    }

    proof fn lemma_dec_enc(m: F32Bits, rest: Seq<u8>) {
        lemma_be_bytes_len(m.0 as nat, 4);
        lemma_pow256_values();
        lemma_be_value_be_bytes(m.0 as nat, 4);
        assert((Self::enc_model(m) + rest).take(4) =~= Self::enc_model(m));
    }

    proof fn lemma_enc_dec(b: Seq<u8>, m: F32Bits, n: int) {
        lemma_pow256_values();
        lemma_be_value_bound(b.take(4));
        lemma_be_bytes_be_value(b.take(4));
    }
}

impl NetworkAdapter for F64Bits {
    type Model = F64Bits;

    open spec fn model(self) -> F64Bits {
        self
    }

    open spec fn enc_model(m: F64Bits) -> Seq<u8> {
        be_bytes(m.0 as nat, 8)
    }

    open spec fn valid_model(m: F64Bits) -> bool {
        true
    }

    open spec fn dec(b: Seq<u8>) -> Result<(F64Bits, int), Error> {
        if b.len() >= 8 {
            Ok((F64Bits(be_value(b.take(8)) as u64), 8))
        } else {
            Err(Error::InsufficientData { remaining: b.len() as usize, needed: 8 })
        }
    }

    open spec fn canon(b: Seq<u8>) -> bool {
        true
    }

    fn get_be(r: &mut Reader) -> (res: Result<F64Bits, Error>) {
        let rem = r.remaining();
        if rem < 8 {
            return Err(Error::InsufficientData { remaining: rem, needed: 8 });
        }
        let w = r.read_be_uint(8);
        proof {
            lemma_pow256_values();
        }
        Ok(F64Bits(w as u64))
    }

    fn put_be(self, out: &mut Vec<u8>) -> (res: Result<(), Error>) {
        put_be_uint(out, self.0 as u64, 8);
        Ok(())
    }

    proof fn lemma_dec_enc(m: F64Bits, rest: Seq<u8>) {
        lemma_be_bytes_len(m.0 as nat, 8);
        lemma_pow256_values();
        lemma_be_value_be_bytes(m.0 as nat, 8);
        assert((Self::enc_model(m) + rest).take(8) =~= Self::enc_model(m));
    }

    proof fn lemma_enc_dec(b: Seq<u8>, m: F64Bits, n: int) {
        lemma_pow256_values();
        lemma_be_value_bound(b.take(8));
        lemma_be_bytes_be_value(b.take(8));
    }
}

} // verus!
