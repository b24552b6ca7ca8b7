//! The optional trailing field: decoding yields "absent" when the source is
//! exhausted and otherwise decodes the inner type; "absent" encodes to
//! nothing. Only meaningful as a message's final field.

use super::rle::{dec_items, enc_items};
use super::{Error, NetworkAdapter, Reader};
use vstd::prelude::*;

verus! {

/// The model of an optional value, elementwise.
pub open spec fn opt_model<T: NetworkAdapter>(v: Option<T>) -> Option<T::Model> {
    match v {
        Some(x) => Some(x.model()),
        None => None,
    }
}

/// The exact outcome of decoding an optional trailing field from `b`.
pub open spec fn dec_opt<T: NetworkAdapter>(b: Seq<u8>) -> Result<(Option<T::Model>, int), Error> {
    if b.len() == 0 {
        Ok((None, 0))
    } else {
        match T::dec(b) {
            Ok((m, u)) => Ok((Some(m), u)),
            Err(e) => Err(e),
        }
    }
}

/// The bytes an optional value encodes to: nothing when absent.
pub open spec fn enc_opt<T: NetworkAdapter>(m: Option<T::Model>) -> Seq<u8> {
    match m {
        Some(x) => T::enc_model(x),
        None => Seq::empty(),
    }
}

/// Whether an optional value can be encoded.
pub open spec fn valid_opt<T: NetworkAdapter>(m: Option<T::Model>) -> bool {
    match m {
        Some(x) => T::valid_model(x),
        None => true,
    }
}

/// Whether the next optional value in `b` is canonically encoded.
pub open spec fn canon_opt<T: NetworkAdapter>(b: Seq<u8>) -> bool {
    b.len() == 0 || T::canon(b)
}

/// Decode an optional trailing field: absent when the reader is exhausted.
pub fn get_opt<T: NetworkAdapter>(r: &mut Reader) -> (res: Result<Option<T>, Error>)
    ensures
        final(r).all_bytes() == old(r).all_bytes(),
        match dec_opt::<T>(old(r).remaining_bytes()) {
            Ok((m, u)) => (res matches Ok(v) && opt_model::<T>(v) == m) && 0 <= u <= old(
                r,
            ).remaining_bytes().len() && final(r).remaining_bytes() == old(
                r,
            ).remaining_bytes().skip(u),
            Err(e) => res == Err::<Option<T>, Error>(e) && final(r).remaining_bytes() == old(
                r,
            ).remaining_bytes(),
        },
{
    let rem = r.remaining();
    if rem == 0 {
        proof {
            assert(old(r).remaining_bytes().skip(0) =~= old(r).remaining_bytes());
        }
        return Ok(None);
    }
    match T::get_be(r) {
        Ok(v) => Ok(Some(v)),
        Err(e) => Err(e),
    }
}

/// Encode an optional value: absent writes nothing.
pub fn put_opt<T: NetworkAdapter>(v: Option<T>, out: &mut Vec<u8>) -> (res: Result<(), Error>)
    ensures
        res == Ok::<(), Error>(()) <==> valid_opt::<T>(opt_model::<T>(v)),
        valid_opt::<T>(opt_model::<T>(v)) ==> final(out)@ == old(out)@ + enc_opt::<T>(
            opt_model::<T>(v),
        ),
        !valid_opt::<T>(opt_model::<T>(v)) ==> (res matches Err(Error::InvalidData(_))
            && final(out)@ == old(out)@),
{
    match v {
        None => {
            proof {
                assert(out@ =~= old(out)@ + Seq::<u8>::empty());
            }
            Ok(())
        },
        Some(x) => x.put_be(out),
    }
}

/// Law: decoding the encoding of a valid optional value yields it back,
/// provided a present value encodes to at least one byte.
pub proof fn lemma_opt_dec_enc<T: NetworkAdapter>(m: Option<T::Model>)
    requires
        valid_opt::<T>(m),
        m matches Some(x) ==> T::enc_model(x).len() != 0,
    ensures
        dec_opt::<T>(enc_opt::<T>(m)) == Ok::<(Option<T::Model>, int), Error>(
            (m, enc_opt::<T>(m).len() as int),
        ),
        canon_opt::<T>(enc_opt::<T>(m)),
{
    match m {
        None => {
        },
        Some(x) => {
            T::lemma_dec_enc(x, Seq::empty());
            assert(T::enc_model(x) + Seq::<u8>::empty() =~= T::enc_model(x));
        },
    }
}

/// Law: the optional value decoded from `b` is valid, and when `b` is
/// canonical, re-encoding it reproduces exactly the bytes consumed.
pub proof fn lemma_opt_enc_dec<T: NetworkAdapter>(b: Seq<u8>, m: Option<T::Model>, u: int)
    requires
        dec_opt::<T>(b) == Ok::<(Option<T::Model>, int), Error>((m, u)),
    ensures
        valid_opt::<T>(m),
        u == enc_opt::<T>(m).len(),
        0 <= u <= b.len(),
        canon_opt::<T>(b) ==> enc_opt::<T>(m) == b.take(u),
{
    if b.len() == 0 {
        assert(enc_opt::<T>(m) =~= b.take(u));
    } else {
        let (x, u0) = T::dec(b)->Ok_0;
        T::lemma_enc_dec(b, x, u0);
    }
}

} // verus!
