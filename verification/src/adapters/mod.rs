//! Adapters for encoding and decoding values as big-endian bytes for
//! transmission over the network.
//!
//! Every adapter is specified against a pair of spec functions: `enc` gives
//! the exact bytes a value encodes to, and `dec` gives the exact outcome of
//! decoding a byte sequence (the value and the number of bytes consumed, or
//! the error). Round-trip laws relating the two are proved per type.

pub mod complex;
pub mod primitives;
pub mod rle;

use crate::num_bytes::{be_value, lemma_pow256_mono, lemma_pow256_values, pow256};
use vstd::prelude::*;

verus! {

/// An error occurring when converting a value to or from big-endian bytes.
#[derive(Debug, Clone, PartialEq, Eq)]
pub enum Error {
    /// Insufficient data left in the buffer to decode the given type.
    InsufficientData {
        /// The number of bytes remaining in the buffer.
        remaining: usize,
        /// The number of bytes needed; this is not necessarily the number of
        /// bytes needed to decode the entire object, just its next part.
        needed: usize,
    },
    /// The given data is invalid and cannot be encoded or decoded properly.
    InvalidData(Invalid),
}

/// The reason a value was rejected as invalid.
#[derive(Debug, Clone, PartialEq, Eq)]
pub enum Invalid {
    /// A sequence is longer than its declared length prefix can express.
    CountOverflow {
        /// The length of the sequence that was to be encoded.
        len: usize,
        /// The largest length the prefix type can express.
        limit: u64,
    },
    /// The bytes of a decoded string are not valid UTF-8.
    Utf8,
    /// A stat entry's type byte is not a known stat type.
    UnknownStat(u8),
    /// A stat entry's value kind does not match its stat type.
    StatMismatch,
    /// An absent optional field precedes a present one.
    OptionalGap,
    /// A bitmap's byte count does not equal `width * height * 4`.
    BitmapSize,
}

/// Concatenation of byte sequences is associative.
pub proof fn lemma_seq_assoc(a: Seq<u8>, b: Seq<u8>, c: Seq<u8>)
    ensures
        (a + b) + c == a + (b + c),
{
    assert((a + b) + c =~= a + (b + c));
}

/// Appending nothing changes nothing.
pub proof fn lemma_concat_empty(a: Seq<u8>)
    ensures
        a + Seq::<u8>::empty() == a,
{
    assert(a + Seq::<u8>::empty() =~= a);
}

/// Skipping a leading piece of a concatenation leaves the rest.
pub proof fn lemma_skip_concat(a: Seq<u8>, b: Seq<u8>)
    ensures
        (a + b).skip(a.len() as int) == b,
{
    assert((a + b).skip(a.len() as int) =~= b);
}

/// Two skips in sequence skip the sum.
pub proof fn lemma_skip_skip(s: Seq<u8>, i: int, j: int)
    requires
        0 <= i,
        0 <= j,
        i + j <= s.len(),
    ensures
        s.skip(i).skip(j) == s.skip(i + j),
{
    assert(s.skip(i).skip(j) =~= s.skip(i + j));
}

/// Adjacent takes concatenate to one longer take.
pub proof fn lemma_take_concat(s: Seq<u8>, i: int, j: int)
    requires
        0 <= i,
        0 <= j,
        i + j <= s.len(),
    ensures
        s.take(i) + s.skip(i).take(j) == s.take(i + j),
{
    assert(s.take(i) + s.skip(i).take(j) =~= s.take(i + j));
}

/// A readable byte source with a known remaining count.
pub struct Reader {
    data: Vec<u8>,
    pos: usize,
}

impl Reader {
    #[verifier::type_invariant]
    spec fn wf(self) -> bool {
        self.pos <= self.data@.len()
    }

    /// Every byte this reader was created over.
    pub closed spec fn all_bytes(self) -> Seq<u8> {
        self.data@
    }

    /// How many bytes have been consumed.
    pub closed spec fn spec_position(self) -> int {
        self.pos as int
    }

    /// The bytes not yet consumed.
    pub open spec fn remaining_bytes(self) -> Seq<u8> {
        self.all_bytes().skip(self.spec_position())
    }

    pub fn new(data: Vec<u8>) -> (r: Reader)
        ensures
            r.all_bytes() == data@,
            r.spec_position() == 0,
            r.remaining_bytes() == data@,
    {
        let r = Reader { data, pos: 0 };
        proof {
            assert(r.remaining_bytes() =~= r.data@);
        }
        r
    }

    /// The number of bytes not yet consumed.
    pub fn remaining(&self) -> (n: usize)
        ensures
            n == self.remaining_bytes().len(),
    {
        proof {
            use_type_invariant(self);
        }
        self.data.len() - self.pos
    }

    /// How many bytes have been consumed so far; a later `seek` back to
    /// this position undoes everything read in between.
    pub fn position(&self) -> (p: usize)
        ensures
            p == self.spec_position(),
            0 <= p <= self.all_bytes().len(),
    {
        proof {
            use_type_invariant(self);
        }
        self.pos
    }

    /// Move the read position to `p`.
    pub fn seek(&mut self, p: usize)
        requires
            p <= old(self).all_bytes().len(),
        ensures
            final(self).all_bytes() == old(self).all_bytes(),
            final(self).spec_position() == p,
    {
        proof {
            use_type_invariant(&*self);
            assert(self.data.len() == self.data@.len());
        }
        self.pos = p;
    }

    /// Consume and return the next byte.
    pub fn read_byte(&mut self) -> (b: u8)
        requires
            old(self).remaining_bytes().len() >= 1,
        ensures
            b == old(self).remaining_bytes()[0],
            final(self).all_bytes() == old(self).all_bytes(),
            final(self).remaining_bytes() == old(self).remaining_bytes().skip(1),
    {
        proof {
            use_type_invariant(&*self);
            assert(self.data.len() == self.data@.len());
            assert(old(self).remaining_bytes().len() == self.data@.len() - self.pos);
        }
        let b = self.data[self.pos];
        self.pos = self.pos + 1;
        proof {
            assert(self.remaining_bytes() =~= old(self).remaining_bytes().skip(1));
        }
        b
    }

    /// Consume the next `n` bytes and return them as a vector.
    pub fn read_vec(&mut self, n: usize) -> (v: Vec<u8>)
        requires
            n <= old(self).remaining_bytes().len(),
        ensures
            v@ == old(self).remaining_bytes().take(n as int),
            final(self).all_bytes() == old(self).all_bytes(),
            final(self).remaining_bytes() == old(self).remaining_bytes().skip(n as int),
    {
        proof {
            use_type_invariant(&*self);
            assert(self.data.len() == self.data@.len());
            assert(old(self).remaining_bytes().len() == self.data@.len() - self.pos);
        }
        let mut v: Vec<u8> = Vec::new();
        let mut i: usize = 0;
        proof {
            assert(v@ =~= old(self).remaining_bytes().take(0));
        }
        while i < n
            invariant
                i <= n,
                n <= old(self).remaining_bytes().len(),
                *self == *old(self),
                self.wf(),
                v@ == old(self).remaining_bytes().take(i as int),
            decreases n - i,
        {
            proof {
                assert(self.data.len() == self.data@.len());
            assert(old(self).remaining_bytes().len() == self.data@.len() - self.pos);
                assert(old(self).remaining_bytes()[i as int] == self.data@[self.pos + i]);
            }
            v.push(self.data[self.pos + i]);
            i = i + 1;
            proof {
                assert(v@ =~= old(self).remaining_bytes().take(i as int));
            }
        }
        self.pos = self.pos + n;
        proof {
            assert(self.remaining_bytes() =~= old(self).remaining_bytes().skip(n as int));
        }
        v
    }

    /// Consume the next `n` bytes as a big-endian unsigned integer.
    pub fn read_be_uint(&mut self, n: usize) -> (v: u64)
        requires
            n <= 8,
            n <= old(self).remaining_bytes().len(),
        ensures
            v as nat == be_value(old(self).remaining_bytes().take(n as int)),
            (v as nat) < pow256(n as nat),
            final(self).all_bytes() == old(self).all_bytes(),
            final(self).remaining_bytes() == old(self).remaining_bytes().skip(n as int),
    {
        proof {
            use_type_invariant(&*self);
            lemma_pow256_values();
            assert(self.data.len() == self.data@.len());
            assert(old(self).remaining_bytes().len() == self.data@.len() - self.pos);
        }
        let mut acc: u64 = 0;
        let mut i: usize = 0;
        proof {
            assert(old(self).remaining_bytes().take(0) =~= Seq::<u8>::empty());
        }
        while i < n
            invariant
                i <= n,
                n <= 8,
                n <= old(self).remaining_bytes().len(),
                *self == *old(self),
                self.wf(),
                acc as nat == be_value(old(self).remaining_bytes().take(i as int)),
                (acc as nat) < pow256(i as nat),
            decreases n - i,
        {
            let ghost pre = old(self).remaining_bytes().take(i as int);
            proof {
                assert(self.data.len() == self.data@.len());
            assert(old(self).remaining_bytes().len() == self.data@.len() - self.pos);
                assert(old(self).remaining_bytes()[i as int] == self.data@[self.pos + i]);
            }
            let b = self.data[self.pos + i];
            proof {
                lemma_pow256_mono(i as nat, 7);
                lemma_pow256_values();
                assert(pow256(7) * 256 == pow256(8));
                assert(acc as nat * 256 + 255 < crate::num_bytes::pow256((i + 1) as nat))
                    by (nonlinear_arith)
                    requires
                        (acc as nat) < pow256(i as nat),
                        crate::num_bytes::pow256((i + 1) as nat) == 256 * crate::num_bytes::pow256(
                            i as nat,
                        ),
                ;
                lemma_pow256_mono((i + 1) as nat, 8);
            }
            acc = acc * 256 + (b as u64);
            i = i + 1;
            proof {
                let cur = old(self).remaining_bytes().take(i as int);
                assert(cur.drop_last() =~= pre);
                assert(cur.last() == b);
            }
        }
        self.pos = self.pos + n;
        proof {
            assert(self.remaining_bytes() =~= old(self).remaining_bytes().skip(n as int));
        }
        acc
    }
}

/// A type that can be converted to and from big-endian bytes, with exact
/// specifications for both directions.
///
/// Each adapter type has a mathematical `Model` (`Seq<char>` for a
/// length-prefixed string, `Seq<u8>` for a length-prefixed byte sequence,
/// the value itself for a primitive). `enc_model` gives the exact bytes a
/// value encodes to, `dec` gives the exact outcome of decoding a byte
/// sequence, and the two round-trip laws below are proved by every
/// implementation.
pub trait NetworkAdapter: Sized {
    /// The mathematical model of a decoded value.
    type Model;

    /// The model of this value.
    spec fn model(self) -> Self::Model;

    /// The bytes a value with model `m` encodes to; meaningful when
    /// `valid_model(m)` holds.
    spec fn enc_model(m: Self::Model) -> Seq<u8>;

    /// Whether a value with model `m` can be encoded: every length in it
    /// fits its declared prefix type.
    spec fn valid_model(m: Self::Model) -> bool;

    /// The exact outcome of decoding a prefix of `b`: the model of the
    /// decoded value and the number of bytes consumed, or the error.
    spec fn dec(b: Seq<u8>) -> Result<(Self::Model, int), Error>;

    /// Whether the next value in `b` is canonically encoded: re-encoding
    /// the value decoded from `b` reproduces the bytes it consumed.
    /// Everything the encoder produces is canonical; the one non-canonical
    /// form that still decodes is a boolean byte other than `0` or `1`,
    /// which decodes to true.
    spec fn canon(b: Seq<u8>) -> bool;

    /// Decode an instance from the given reader. On failure nothing is
    /// consumed: the reader stands where it stood.
    fn get_be(r: &mut Reader) -> (res: Result<Self, Error>)
        ensures
            final(r).all_bytes() == old(r).all_bytes(),
            match Self::dec(old(r).remaining_bytes()) {
                Ok((m, n)) => (res matches Ok(v) && v.model() == m) && 0 <= n <= old(
                    r,
                ).remaining_bytes().len() && final(r).remaining_bytes() == old(
                    r,
                ).remaining_bytes().skip(n),
                Err(e) => res == Err::<Self, Error>(e) && final(r).remaining_bytes() == old(
                    r,
                ).remaining_bytes(),
            },
    ;

    /// Encode an instance to the given buffer. On failure nothing is
    /// written: the buffer holds exactly what it held.
    fn put_be(self, out: &mut Vec<u8>) -> (res: Result<(), Error>)
        ensures
            res == Ok::<(), Error>(()) <==> Self::valid_model(self.model()),
            Self::valid_model(self.model()) ==> final(out)@ == old(out)@ + Self::enc_model(
                self.model(),
            ),
            !Self::valid_model(self.model()) ==> (res matches Err(Error::InvalidData(_))
                && final(out)@ == old(out)@),
    ;

    /// Law: decoding the encoding of a valid value (with any bytes
    /// following) yields the value back and consumes exactly its encoding.
    proof fn lemma_dec_enc(m: Self::Model, rest: Seq<u8>)
        requires
            Self::valid_model(m),
        ensures
            Self::dec(Self::enc_model(m) + rest) == Ok::<(Self::Model, int), Error>(
                (m, Self::enc_model(m).len() as int),
            ),
            Self::canon(Self::enc_model(m) + rest),
    ;

    /// Law: re-encoding a decoded value reproduces exactly the bytes
    /// consumed.
    proof fn lemma_enc_dec(b: Seq<u8>, m: Self::Model, n: int)
        requires
            Self::dec(b) == Ok::<(Self::Model, int), Error>((m, n)),
        ensures
            Self::valid_model(m),
            n == Self::enc_model(m).len(),
            0 <= n <= b.len(),
            Self::canon(b) ==> Self::enc_model(m) == b.take(n),
    ;
}

} // verus!
