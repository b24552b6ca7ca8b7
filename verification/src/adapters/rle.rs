//! Length-prefixed ("run-length encoded") sequences and strings.
//!
//! A `RLE<Vec<T>, S>` is a sequence of `T`s whose encoding is an integer of
//! type `S` holding the item count, followed by each item's encoding in
//! order. A `RLE<String, S>` (and the equivalent `RLEString<S>`) is the
//! UTF-8 bytes of the string, length-prefixed the same way; the byte count
//! is the count of UTF-8 bytes, and decoding fails on bytes that are not
//! valid UTF-8.

use super::{Error, Invalid, NetworkAdapter, Reader};
use vstd::string::StringSliceAdditionalSpecFns;
use vstd::utf8::{decode_utf8, decode_utf8_encode_utf8, encode_utf8, encode_utf8_decode_utf8, encode_utf8_valid_utf8, valid_utf8};
use vstd::prelude::*;

verus! {

/// The models of the values in `s`, elementwise.
pub open spec fn models_of<T: NetworkAdapter>(s: Seq<T>) -> Seq<T::Model> {
    Seq::new(s.len(), |j: int| s[j].model())
}

/// The concatenated encodings of the models in `ms`, in order.
pub open spec fn enc_items<T: NetworkAdapter>(ms: Seq<T::Model>) -> Seq<u8>
    decreases ms.len(),
{
    if ms.len() == 0 {
        Seq::empty()
    } else {
        T::enc_model(ms[0]) + enc_items::<T>(ms.drop_first())
    }
}

/// Whether every model in `ms` can be encoded.
pub open spec fn items_valid<T: NetworkAdapter>(ms: Seq<T::Model>) -> bool {
    forall|j: int| 0 <= j < ms.len() ==> T::valid_model(#[trigger] ms[j])
}

/// The exact outcome of decoding `n` consecutive items from `b`.
pub open spec fn dec_items<T: NetworkAdapter>(b: Seq<u8>, n: nat) -> Result<
    (Seq<T::Model>, int),
    Error,
>
    decreases n,
{
    if n == 0 {
        Ok((Seq::empty(), 0))
    } else {
        match T::dec(b) {
            Ok((m, u)) => match dec_items::<T>(b.skip(u), (n - 1) as nat) {
                Ok((ms, u2)) => Ok((seq![m] + ms, u + u2)),
                Err(e) => Err(e),
            },
            Err(e) => Err(e),
        }
    }
}

/// Whether the next `n` items in `b` are canonically encoded.
pub open spec fn canon_items<T: NetworkAdapter>(b: Seq<u8>, n: nat) -> bool
    decreases n,
{
    if n == 0 {
        true
    } else {
        match T::dec(b) {
            Ok((m, u)) => T::canon(b) && canon_items::<T>(b.skip(u), (n - 1) as nat),
            Err(e) => true,
        }
    }
}

/// Appending one model to a list appends its encoding to the list's.
pub proof fn lemma_enc_items_snoc<T: NetworkAdapter>(ms: Seq<T::Model>, m: T::Model)
    ensures
        enc_items::<T>(ms.push(m)) == enc_items::<T>(ms) + T::enc_model(m),
    decreases ms.len(),
{
    let p = ms.push(m);
    if ms.len() == 0 {
        assert(p.drop_first() =~= Seq::<T::Model>::empty());
        assert(p[0] == m);
        assert(enc_items::<T>(p.drop_first()).len() == 0);
        assert(enc_items::<T>(p) == T::enc_model(m) + enc_items::<T>(p.drop_first()));
        assert(enc_items::<T>(p) =~= enc_items::<T>(ms) + T::enc_model(m));
    } else {
        assert(p.drop_first() =~= ms.drop_first().push(m));
        assert(p[0] == ms[0]);
        lemma_enc_items_snoc::<T>(ms.drop_first(), m);
        assert(enc_items::<T>(p) == T::enc_model(p[0]) + enc_items::<T>(p.drop_first()));
        assert(enc_items::<T>(p) =~= enc_items::<T>(ms) + T::enc_model(m));
    }
}

/// Law: decoding the concatenated encodings of `n` valid items (with any
/// bytes following) yields the items back, consuming exactly their bytes,
/// and those bytes are canonical.
pub proof fn lemma_items_dec_enc<T: NetworkAdapter>(ms: Seq<T::Model>, rest: Seq<u8>)
    requires
        items_valid::<T>(ms),
    ensures
        dec_items::<T>(enc_items::<T>(ms) + rest, ms.len()) == Ok::<(Seq<T::Model>, int), Error>(
            (ms, enc_items::<T>(ms).len() as int),
        ),
        canon_items::<T>(enc_items::<T>(ms) + rest, ms.len()),
    decreases ms.len(),
{
    if ms.len() == 0 {
        assert(enc_items::<T>(ms) + rest =~= rest);
        assert(dec_items::<T>(enc_items::<T>(ms) + rest, 0) == Ok::<(Seq<T::Model>, int), Error>(
            (Seq::empty(), 0),
        ));
        assert(ms =~= Seq::<T::Model>::empty());
    } else {
        let m0 = ms[0];
        let tail = ms.drop_first();
        let e0 = T::enc_model(m0);
        let etail = enc_items::<T>(tail);
        let b = enc_items::<T>(ms) + rest;
        assert(b =~= e0 + (etail + rest));
        T::lemma_dec_enc(m0, etail + rest);
        assert(T::dec(b) == Ok::<(T::Model, int), Error>((m0, e0.len() as int)));
        assert(b.skip(e0.len() as int) =~= etail + rest);
        lemma_items_dec_enc::<T>(tail, rest);
        assert(seq![m0] + tail =~= ms);
    }
}

/// Law: the items decoded from `b` are all valid, and when the consumed
/// bytes are canonical, re-encoding the items reproduces them exactly.
pub proof fn lemma_items_enc_dec<T: NetworkAdapter>(b: Seq<u8>, n: nat, ms: Seq<T::Model>, u: int)
    requires
        dec_items::<T>(b, n) == Ok::<(Seq<T::Model>, int), Error>((ms, u)),
    ensures
        items_valid::<T>(ms),
        ms.len() == n,
        u == enc_items::<T>(ms).len(),
        0 <= u <= b.len(),
        canon_items::<T>(b, n) ==> enc_items::<T>(ms) == b.take(u),
    decreases n,
{
    if n == 0 {
        assert(ms =~= Seq::<T::Model>::empty());
        if canon_items::<T>(b, n) {
            assert(enc_items::<T>(ms) =~= b.take(u));
        }
    } else {
        let (m0, u0) = T::dec(b)->Ok_0;
        T::lemma_enc_dec(b, m0, u0);
        let tail_res = dec_items::<T>(b.skip(u0), (n - 1) as nat);
        let (mtail, utail) = tail_res->Ok_0;
        lemma_items_enc_dec::<T>(b.skip(u0), (n - 1) as nat, mtail, utail);
        assert(ms == seq![m0] + mtail);
        assert(ms.drop_first() =~= mtail);
        assert(ms[0] == m0);
        assert(enc_items::<T>(ms) == T::enc_model(m0) + enc_items::<T>(mtail));
        if canon_items::<T>(b, n) {
            assert(T::canon(b));
            assert(T::enc_model(m0) == b.take(u0));
            assert(enc_items::<T>(mtail) == b.skip(u0).take(utail));
            assert(enc_items::<T>(ms) =~= b.take(u));
        }
    }
}

/// Decode `n` consecutive items from the reader.
#[verifier::loop_isolation(false)]
pub fn get_items<T: NetworkAdapter>(r: &mut Reader, n: usize) -> (res: Result<Vec<T>, Error>)
    ensures
        final(r).all_bytes() == old(r).all_bytes(),
        match dec_items::<T>(old(r).remaining_bytes(), n as nat) {
            Ok((ms, u)) => (res matches Ok(v) && models_of::<T>(v@) == ms) && 0 <= u
                <= old(r).remaining_bytes().len() && final(r).remaining_bytes() == old(
                r,
            ).remaining_bytes().skip(u),
            Err(e) => res == Err::<Vec<T>, Error>(e),
        },
{
    let ghost b0 = old(r).remaining_bytes();
    let mut out: Vec<T> = Vec::new();
    let mut i: usize = 0;
    let ghost mut used: int = 0;
    proof {
        assert(b0.skip(0) =~= b0);
        assert(models_of::<T>(out@) =~= Seq::<T::Model>::empty());
        if let Ok((ms, u)) = dec_items::<T>(b0, n as nat) {
            lemma_items_enc_dec::<T>(b0, n as nat, ms, u);
            assert(models_of::<T>(out@) =~= ms.take(0));
            assert(ms.skip(0) =~= ms);
        }
    }
    while i < n
        invariant
            i <= n,
            0 <= used <= b0.len(),
            r.all_bytes() == old(r).all_bytes(),
            r.remaining_bytes() == b0.skip(used),
            match dec_items::<T>(b0, n as nat) {
                Ok((ms, u)) => models_of::<T>(out@) == ms.take(i as int)
                    && dec_items::<T>(r.remaining_bytes(), (n - i) as nat) == Ok::<
                    (Seq<T::Model>, int),
                    Error,
                >((ms.skip(i as int), u - used)),
                Err(e) => dec_items::<T>(r.remaining_bytes(), (n - i) as nat) == Err::<
                    (Seq<T::Model>, int),
                    Error,
                >(e),
            },
        decreases n - i,
    {
        let ghost cur = r.remaining_bytes();
        match T::get_be(r) {
            Err(e) => {
                proof {
                    // the current item fails to decode, so the whole list does
                    assert(T::dec(cur) matches Err(_));
                    let de = T::dec(cur)->Err_0;
                    assert(e == de);
                    assert(dec_items::<T>(cur, (n - i) as nat) == Err::<
                        (Seq<T::Model>, int),
                        Error,
                    >(de));
                    assert(!(dec_items::<T>(b0, n as nat) matches Ok(_)));
                    assert(dec_items::<T>(b0, n as nat) matches Err(_));
                    let e0 = dec_items::<T>(b0, n as nat)->Err_0;
                    assert(e0 == de);
                }
                return Err(e);
            },
            Ok(item) => {
                proof {
                    assert(T::dec(cur) matches Ok(_));
                    let (m0, u0) = T::dec(cur)->Ok_0;
                    assert(b0.skip(used).skip(u0) =~= b0.skip(used + u0));
                    used = used + u0;
                    let prev = models_of::<T>(out@);
                    assert(models_of::<T>(out@ + seq![item]) =~= prev + seq![
                        item.model(),
                    ]);
                    if let Ok((ms, u)) = dec_items::<T>(b0, n as nat) {
                        lemma_items_enc_dec::<T>(b0, n as nat, ms, u);
                        let rest_res = dec_items::<T>(cur.skip(u0), (n - i - 1) as nat);
                        assert(rest_res matches Ok(_));
                        let (ms2, u2) = rest_res->Ok_0;
                        assert(ms.skip(i as int) == seq![m0] + ms2);
                        assert((seq![m0] + ms2)[0] == m0);
                        assert(ms.skip(i as int)[0] == ms[i as int]);
                        assert(ms[i as int] == m0);
                        assert(item.model() == ms[i as int]);
                        assert(prev + seq![item.model()] =~= ms.take(i + 1));
                        assert(ms.skip(i as int).drop_first() =~= ms2);
                        assert(ms.skip(i + 1) =~= ms2);
                    }
                }
                out.push(item);
                i = i + 1;
            },
        }
    }
    proof {
        if let Ok((ms, u)) = dec_items::<T>(b0, n as nat) {
            lemma_items_enc_dec::<T>(b0, n as nat, ms, u);
            assert(dec_items::<T>(r.remaining_bytes(), 0) == Ok::<(Seq<T::Model>, int), Error>(
                (ms.skip(n as int), u - used),
            ));
            assert(ms.take(i as int) =~= ms);
            assert(u == used);
        } else {
            assert(dec_items::<T>(r.remaining_bytes(), 0) matches Ok(_));
            assert(false);
        }
    }
    Ok(out)
}

/// Encode every item in `items`, in order.
#[verifier::loop_isolation(false)]
pub fn put_items<T: NetworkAdapter>(items: Vec<T>, out: &mut Vec<u8>) -> (res: Result<(), Error>)
    ensures
        res == Ok::<(), Error>(()) <==> items_valid::<T>(models_of::<T>(items@)),
        items_valid::<T>(models_of::<T>(items@)) ==> final(out)@ == old(out)@
            + enc_items::<T>(models_of::<T>(items@)),
        !items_valid::<T>(models_of::<T>(items@)) ==> (res matches Err(
            Error::InvalidData(_),
        ) && old(out)@.is_prefix_of(final(out)@)),
{
    let ghost full = models_of::<T>(items@);
    proof {
        assert(items.len() == items@.len());
    }
    let mut items = items;
    let mut i: usize = 0;
    proof {
        assert(models_of::<T>(items@) =~= full.skip(0));
        assert(enc_items::<T>(full.take(0)) =~= Seq::<u8>::empty());
        assert(out@ =~= old(out)@ + enc_items::<T>(full.take(0)));
    }
    while items.len() > 0
        invariant
            0 <= i <= full.len(),
            i + items.len() == full.len(),
            models_of::<T>(items@) == full.skip(i as int),
            out@ == old(out)@ + enc_items::<T>(full.take(i as int)),
            forall|j: int| 0 <= j < i ==> T::valid_model(#[trigger] full[j]),
        decreases items.len(),
    {
        let ghost pre_items = items@;
        let item = items.remove(0);
        proof {
            assert(item == pre_items[0]);
            assert(models_of::<T>(pre_items)[0] == pre_items[0].model());
            assert(models_of::<T>(pre_items) == full.skip(i as int));
            assert(full.skip(i as int)[0] == full[i as int]);
            assert(item.model() == full[i as int]);
            assert(items@ =~= pre_items.skip(1));
            assert forall|j: int| 0 <= j < items@.len() implies models_of::<T>(items@)[j]
                == full.skip(i + 1)[j] by {
                assert(items@[j] == pre_items[j + 1]);
                assert(models_of::<T>(pre_items)[j + 1] == pre_items[j + 1].model());
                assert(full.skip(i + 1)[j] == full[i + 1 + j]);
                assert(full.skip(i as int)[j + 1] == full[i + 1 + j]);
            }
            assert(models_of::<T>(items@) =~= full.skip(i + 1));
        }
        match item.put_be(out) {
            Err(e) => {
                proof {
                    assert(!T::valid_model(full[i as int]));
                    assert(!items_valid::<T>(full));
                    assert(old(out)@.is_prefix_of(out@));
                }
                return Err(e);
            },
            Ok(()) => {
                proof {
                    lemma_enc_items_snoc::<T>(full.take(i as int), full[i as int]);
                    assert(full.take(i as int).push(full[i as int]) =~= full.take(i + 1));
                    assert(out@ =~= old(out)@ + enc_items::<T>(full.take(i + 1)));
                }
                i = i + 1;
            },
        }
    }
    proof {
        assert(full.take(i as int) =~= full);
        assert(items_valid::<T>(full));
    }
    Ok(())
}


/// Every byte sequence is canonical for a length-prefixed string: the
/// byte count and the UTF-8 bytes re-encode exactly as they were read.
pub proof fn lemma_rle_string_canon<S: Prefix>(b: Seq<u8>)
    ensures
        <RLE<String, S> as NetworkAdapter>::canon(b),
{
}

/// A length-prefix integer type (`u8`, `u16` or `u32`), counted in items
/// for a sequence and in bytes for a string.
pub trait Prefix: NetworkAdapter<Model = Self> + Copy {
    /// The largest count this prefix type can express.
    spec fn max_count() -> u64;

    /// The count a prefix value denotes.
    spec fn count_of(self) -> int;

    /// The prefix value denoting a count.
    spec fn of_count(c: int) -> Self;

    /// Facts about one prefix value: its count is in range, it round-trips
    /// through its count, it is its own model, and it is always encodable.
    proof fn lemma_count(self)
        ensures
            0 <= self.count_of() <= Self::max_count(),
            Self::of_count(self.count_of()) == self,
            self.model() == self,
            Self::valid_model(self),
    ;

    /// A count in range round-trips through its prefix value.
    proof fn lemma_of_count(c: int)
        requires
            0 <= c <= Self::max_count(),
        ensures
            Self::of_count(c).count_of() == c,
    ;

    /// Every byte sequence is canonical for a prefix integer.
    proof fn lemma_canon(b: Seq<u8>)
        ensures
            Self::canon(b),
    ;

    /// The count this prefix value denotes.
    fn to_count(self) -> (c: usize)
        ensures
            c as int == self.count_of(),
    ;

    /// The prefix value denoting the count `c`.
    fn from_count(c: usize) -> (s: Self)
        requires
            c as u64 <= Self::max_count(),
        ensures
            s.count_of() == c as int,
    ;

    /// The largest count this prefix type can express.
    fn max_count_exec() -> (m: u64)
        ensures
            m == Self::max_count(),
    ;
}

impl Prefix for u8 {
    open spec fn max_count() -> u64 {
        0xFF
    }

    open spec fn count_of(self) -> int {
        self as int
    }

    open spec fn of_count(c: int) -> u8 {
        c as u8
    }

    proof fn lemma_count(self) {
    }

    proof fn lemma_of_count(c: int) {
    }

    proof fn lemma_canon(b: Seq<u8>) {
    }

    fn to_count(self) -> (c: usize) {
        self as usize
    }

    fn from_count(c: usize) -> (s: Self) {
        c as u8
    }

    fn max_count_exec() -> (m: u64) {
        0xFF
    }
}

impl Prefix for u16 {
    open spec fn max_count() -> u64 {
        0xFFFF
    }

    open spec fn count_of(self) -> int {
        self as int
    }

    open spec fn of_count(c: int) -> u16 {
        c as u16
    }

    proof fn lemma_count(self) {
    }

    proof fn lemma_of_count(c: int) {
    }

    proof fn lemma_canon(b: Seq<u8>) {
    }

    fn to_count(self) -> (c: usize) {
        self as usize
    }

    fn from_count(c: usize) -> (s: Self) {
        c as u16
    }

    fn max_count_exec() -> (m: u64) {
        0xFFFF
    }
}

impl Prefix for u32 {
    open spec fn max_count() -> u64 {
        0xFFFF_FFFF
    }

    open spec fn count_of(self) -> int {
        self as int
    }

    open spec fn of_count(c: int) -> u32 {
        c as u32
    }

    proof fn lemma_count(self) {
    }

    proof fn lemma_of_count(c: int) {
    }

    proof fn lemma_canon(b: Seq<u8>) {
    }

    fn to_count(self) -> (c: usize) {
        self as usize
    }

    fn from_count(c: usize) -> (s: Self) {
        c as u32
    }

    fn max_count_exec() -> (m: u64) {
        0xFFFF_FFFF
    }
}

/// A wrapper around a value of type `T` that is converted to or from
/// big-endian bytes by prefixing the data with an integer of type `S`.
#[verifier::reject_recursive_types(S)]
#[derive(Debug, PartialEq)]
pub struct RLE<T, S = u16> {
    /// The wrapped value.
    pub inner: T,
    /// Marks the declared width of the length prefix.
    pub prefix: core::marker::PhantomData<S>,
}

impl<T, S> RLE<T, S> {
    /// Create a new length-prefixed wrapper for the given value.
    pub fn new(inner: T) -> (r: Self)
        ensures
            r.inner == inner,
    {
        RLE { inner, prefix: core::marker::PhantomData }
    }

    /// Unwrap the contained value.
    pub fn unwrap(self) -> (t: T)
        ensures
            t == self.inner,
    {
        self.inner
    }

    /// Get a reference to the contained value.
    pub fn get_ref(&self) -> (t: &T)
        ensures
            t == &self.inner,
    {
        &self.inner
    }
}

impl<T: Clone, S> Clone for RLE<T, S> {
    fn clone(&self) -> (r: Self) {
        RLE { inner: self.inner.clone(), prefix: core::marker::PhantomData }
    }
}

/// A wrapper around a `String` that is converted to or from big-endian
/// bytes by prefixing its UTF-8 bytes with an integer of type `S`.
#[verifier::reject_recursive_types(S)]
#[derive(Debug, PartialEq)]
pub struct RLEString<S = u16> {
    /// The wrapped string.
    pub string: String,
    /// Marks the declared width of the length prefix.
    pub prefix: core::marker::PhantomData<S>,
}

impl<S> RLEString<S> {
    /// Create a new length-prefixed wrapper for the given string.
    pub fn new(string: String) -> (r: Self)
        ensures
            r.string == string,
    {
        RLEString { string, prefix: core::marker::PhantomData }
    }

    /// Unwrap the stored string.
    pub fn unwrap(self) -> (t: String)
        ensures
            t == self.string,
    {
        self.string
    }
}

impl<S> Clone for RLEString<S> {
    fn clone(&self) -> (r: Self) {
        RLEString { string: self.string.clone(), prefix: core::marker::PhantomData }
    }
}

/// Relies on `String::from_utf8`: it returns the string holding exactly the
/// given bytes when they are valid UTF-8, and fails otherwise.
#[verifier::external_body]
fn string_from_utf8(bytes: Vec<u8>) -> (r: Result<String, Error>)
    ensures
        r matches Ok(s) ==> valid_utf8(bytes@) && encode_utf8(s@) == bytes@,
        r matches Err(e) ==> !valid_utf8(bytes@) && e == Error::InvalidData(Invalid::Utf8),
{
    match String::from_utf8(bytes) {
        Ok(s) => Ok(s),
        Err(_) => Err(Error::InvalidData(Invalid::Utf8)),
    }
}

impl<T: NetworkAdapter, S: Prefix> NetworkAdapter for RLE<Vec<T>, S> {
    type Model = Seq<T::Model>;

    open spec fn model(self) -> Seq<T::Model> {
        models_of::<T>(self.inner@)
    }

    open spec fn enc_model(m: Seq<T::Model>) -> Seq<u8> {
        S::enc_model(S::of_count(m.len() as int)) + enc_items::<T>(m)
    }

    open spec fn valid_model(m: Seq<T::Model>) -> bool {
        m.len() <= S::max_count() && items_valid::<T>(m)
    }

    open spec fn dec(b: Seq<u8>) -> Result<(Seq<T::Model>, int), Error> {
        match S::dec(b) {
            Ok((p, pl)) => match dec_items::<T>(b.skip(pl), p.count_of() as nat) {
                Ok((ms, u)) => Ok((ms, pl + u)),
                Err(e) => Err(e),
            },
            Err(e) => Err(e),
        }
    }

    open spec fn canon(b: Seq<u8>) -> bool {
        match S::dec(b) {
            Ok((p, pl)) => canon_items::<T>(b.skip(pl), p.count_of() as nat),
            Err(e) => true,
        }
    }

    fn get_be(r: &mut Reader) -> (res: Result<Self, Error>) {
        let ghost b = old(r).remaining_bytes();
        let save = r.position();
        match S::get_be(r) {
            Err(e) => Err(e),
            Ok(p) => {
                proof {
                    p.lemma_count();
                    let (pm, pl) = S::dec(b)->Ok_0;
                    assert(p.model() == pm);
                    pm.lemma_count();
                    assert(p == pm);
                }
                let cnt = p.to_count();
                let ghost mid = r.remaining_bytes();
                match get_items::<T>(r, cnt) {
                    Err(e) => {
                        r.seek(save);
                        Err(e)
                    },
                    Ok(v) => {
                        proof {
                            let (pm, pl) = S::dec(b)->Ok_0;
                            if let Ok((ms, u)) = dec_items::<T>(mid, cnt as nat) {
                                assert(b.skip(pl).skip(u) =~= b.skip(pl + u));
                            }
                        }
                        Ok(RLE::new(v))
                    },
                }
            },
        }
    }

    fn put_be(self, out: &mut Vec<u8>) -> (res: Result<(), Error>) {
        let ghost m = self.model();
        let limit = S::max_count_exec();
        let len = self.inner.len();
        if (len as u64) > limit {
            return Err(Error::InvalidData(Invalid::CountOverflow { len, limit }));
        }
        let p = S::from_count(len);
        proof {
            p.lemma_count();
            assert(S::of_count(m.len() as int) == p);
        }
        let mut tmp: Vec<u8> = Vec::new();
        let _pres = p.put_be(&mut tmp);
        match put_items::<T>(self.inner, &mut tmp) {
            Err(e) => {
                proof {
                    assert(!Self::valid_model(m));
                }
                Err(e)
            },
            Ok(()) => {
                out.append(&mut tmp);
                proof {
                    assert(out@ =~= old(out)@ + Self::enc_model(m));
                }
                Ok(())
            },
        }
    }

    proof fn lemma_dec_enc(m: Seq<T::Model>, rest: Seq<u8>) {
        let pv = S::of_count(m.len() as int);
        S::lemma_of_count(m.len() as int);
        pv.lemma_count();
        let pe = S::enc_model(pv);
        let ie = enc_items::<T>(m);
        S::lemma_dec_enc(pv, ie + rest);
        let b = Self::enc_model(m) + rest;
        assert(b =~= pe + (ie + rest));
        assert(b.skip(pe.len() as int) =~= ie + rest);
        lemma_items_dec_enc::<T>(m, rest);
        assert(Self::enc_model(m).len() == pe.len() + ie.len());
    }

    proof fn lemma_enc_dec(b: Seq<u8>, m: Seq<T::Model>, n: int) {
        let (pv, pl) = S::dec(b)->Ok_0;
        S::lemma_enc_dec(b, pv, pl);
        S::lemma_canon(b);
        pv.lemma_count();
        let cnt = pv.count_of();
        let (ms, u) = dec_items::<T>(b.skip(pl), cnt as nat)->Ok_0;
        lemma_items_enc_dec::<T>(b.skip(pl), cnt as nat, ms, u);
        assert(S::of_count(m.len() as int) == pv);
        assert(Self::enc_model(m).len() == pl + u);
        if Self::canon(b) {
            assert(S::enc_model(pv) == b.take(pl));
            assert(enc_items::<T>(ms) == b.skip(pl).take(u));
            assert(Self::enc_model(m) =~= b.take(n));
        }
    }
}

impl<S: Prefix> NetworkAdapter for RLE<String, S> {
    type Model = Seq<char>;

    open spec fn model(self) -> Seq<char> {
        self.inner@
    }

    open spec fn enc_model(m: Seq<char>) -> Seq<u8> {
        S::enc_model(S::of_count(encode_utf8(m).len() as int)) + encode_utf8(m)
    }

    open spec fn valid_model(m: Seq<char>) -> bool {
        encode_utf8(m).len() <= S::max_count()
    }

    open spec fn dec(b: Seq<u8>) -> Result<(Seq<char>, int), Error> {
        match S::dec(b) {
            Ok((p, pl)) => {
                let c = p.count_of();
                if b.skip(pl).len() >= c {
                    if valid_utf8(b.skip(pl).take(c)) {
                        Ok((decode_utf8(b.skip(pl).take(c)), pl + c))
                    } else {
                        Err(Error::InvalidData(Invalid::Utf8))
                    }
                } else {
                    Err(
                        Error::InsufficientData {
                            remaining: b.skip(pl).len() as usize,
                            needed: c as usize,
                        },
                    )
                }
            },
            Err(e) => Err(e),
        }
    }

    open spec fn canon(b: Seq<u8>) -> bool {
        true
    }

    fn get_be(r: &mut Reader) -> (res: Result<Self, Error>) {
        let ghost b = old(r).remaining_bytes();
        let save = r.position();
        match S::get_be(r) {
            Err(e) => Err(e),
            Ok(p) => {
                proof {
                    p.lemma_count();
                    let (pm, pl) = S::dec(b)->Ok_0;
                    assert(p.model() == pm);
                    pm.lemma_count();
                    assert(p == pm);
                }
                let cnt = p.to_count();
                let rem = r.remaining();
                if rem < cnt {
                    r.seek(save);
                    return Err(Error::InsufficientData { remaining: rem, needed: cnt });
                }
                let bytes = r.read_vec(cnt);
                match string_from_utf8(bytes) {
                    Ok(s) => {
                        proof {
                            let (pm, pl) = S::dec(b)->Ok_0;
                            encode_utf8_decode_utf8(s@);
                            assert(s@ == decode_utf8(b.skip(pl).take(pm.count_of())));
                            assert(b.skip(pl).skip(cnt as int) =~= b.skip(pl + cnt));
                        }
                        Ok(RLE::new(s))
                    },
                    Err(e) => {
                        r.seek(save);
                        Err(e)
                    },
                }
            },
        }
    }

    fn put_be(self, out: &mut Vec<u8>) -> (res: Result<(), Error>) {
        let ghost m = self.inner@;
        let limit = S::max_count_exec();
        let bytes = self.inner.as_str().as_bytes();
        let len = bytes.len();
        if (len as u64) > limit {
            return Err(Error::InvalidData(Invalid::CountOverflow { len, limit }));
        }
        let p = S::from_count(len);
        proof {
            p.lemma_count();
            assert(S::of_count(encode_utf8(m).len() as int) == p);
        }
        let _pres = p.put_be(out);
        let mut bv = vstd::slice::slice_to_vec(bytes);
        out.append(&mut bv);
        proof {
            assert(out@ =~= old(out)@ + Self::enc_model(m));
        }
        Ok(())
    }

    proof fn lemma_dec_enc(m: Seq<char>, rest: Seq<u8>) {
        let ue = encode_utf8(m);
        let c = ue.len() as int;
        let pv = S::of_count(c);
        S::lemma_of_count(c);
        pv.lemma_count();
        let pe = S::enc_model(pv);
        S::lemma_dec_enc(pv, ue + rest);
        let b = Self::enc_model(m) + rest;
        assert(b =~= pe + (ue + rest));
        assert(b.skip(pe.len() as int) =~= ue + rest);
        assert(b.skip(pe.len() as int).take(c) =~= ue);
        encode_utf8_valid_utf8(m);
        encode_utf8_decode_utf8(m);
        assert(Self::enc_model(m).len() == pe.len() + c);
    }

    proof fn lemma_enc_dec(b: Seq<u8>, m: Seq<char>, n: int) {
        let (pv, pl) = S::dec(b)->Ok_0;
        S::lemma_enc_dec(b, pv, pl);
        S::lemma_canon(b);
        pv.lemma_count();
        let c = pv.count_of();
        let ub = b.skip(pl).take(c);
        decode_utf8_encode_utf8(ub);
        assert(encode_utf8(m) == ub);
        assert(S::of_count(c) == pv);
        assert(Self::enc_model(m).len() == pl + c);
        assert(S::enc_model(pv) == b.take(pl));
        assert(Self::enc_model(m) =~= b.take(n));
    }
}

impl<S: Prefix> NetworkAdapter for RLEString<S> {
    type Model = Seq<char>;

    open spec fn model(self) -> Seq<char> {
        self.string@
    }

    open spec fn enc_model(m: Seq<char>) -> Seq<u8> {
        <RLE<String, S> as NetworkAdapter>::enc_model(m)
    }

    open spec fn valid_model(m: Seq<char>) -> bool {
        <RLE<String, S> as NetworkAdapter>::valid_model(m)
    }

    open spec fn dec(b: Seq<u8>) -> Result<(Seq<char>, int), Error> {
        <RLE<String, S> as NetworkAdapter>::dec(b)
    }

    open spec fn canon(b: Seq<u8>) -> bool {
        true
    }

    fn get_be(r: &mut Reader) -> (res: Result<Self, Error>) {
        match <RLE<String, S> as NetworkAdapter>::get_be(r) {
            Ok(x) => Ok(RLEString::new(x.unwrap())),
            Err(e) => Err(e),
        }
    }

    fn put_be(self, out: &mut Vec<u8>) -> (res: Result<(), Error>) {
        RLE::<String, S>::new(self.string).put_be(out)
    }

    proof fn lemma_dec_enc(m: Seq<char>, rest: Seq<u8>) {
        <RLE<String, S> as NetworkAdapter>::lemma_dec_enc(m, rest);
    }

    proof fn lemma_enc_dec(b: Seq<u8>, m: Seq<char>, n: int) {
        <RLE<String, S> as NetworkAdapter>::lemma_enc_dec(b, m, n);
    }
}

} // verus!
