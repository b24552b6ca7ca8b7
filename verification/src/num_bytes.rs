//! Big-endian byte encodings of fixed-width unsigned integers.

use vstd::prelude::*;

verus! {

/// `n`-byte big-endian encoding of `v` (the low `n` bytes of `v`,
/// most significant first).
pub open spec fn be_bytes(v: nat, n: nat) -> Seq<u8>
    decreases n,
{
    if n == 0 {
        Seq::empty()
    } else {
        be_bytes(v / 256, (n - 1) as nat) + seq![(v % 256) as u8]
    }
}

/// Value of a big-endian byte sequence.
pub open spec fn be_value(b: Seq<u8>) -> nat
    decreases b.len(),
{
    if b.len() == 0 {
        0
    } else {
        (be_value(b.drop_last()) * 256 + b.last()) as nat
    }
}

/// 256 to the power `n`: the number of distinct `n`-byte values.
pub open spec fn pow256(n: nat) -> nat
    decreases n,
{
    if n == 0 {
        1
    } else {
        256 * pow256((n - 1) as nat)
    }
}

pub proof fn lemma_be_bytes_len(v: nat, n: nat)
    ensures
        be_bytes(v, n).len() == n,
    decreases n,
{
    if n > 0 {
        lemma_be_bytes_len(v / 256, (n - 1) as nat);
    }
}

pub proof fn lemma_be_value_bound(b: Seq<u8>)
    ensures
        be_value(b) < pow256(b.len()),
    decreases b.len(),
{
    if b.len() > 0 {
        lemma_be_value_bound(b.drop_last());
        assert(be_value(b.drop_last()) * 256 + 255 < pow256(b.len())) by {
            let p = pow256((b.len() - 1) as nat);
            assert(be_value(b.drop_last()) <= p - 1);
            assert((p - 1) * 256 + 255 < 256 * p) by (nonlinear_arith)
                requires p >= 1;
            assert(be_value(b.drop_last()) * 256 <= (p - 1) * 256) by (nonlinear_arith)
                requires be_value(b.drop_last()) <= p - 1;
        };
    }
}

/// Decoding the encoding of a value that fits in `n` bytes returns the value.
pub proof fn lemma_be_value_be_bytes(v: nat, n: nat)
    requires
        v < pow256(n),
    ensures
        be_value(be_bytes(v, n)) == v,
    decreases n,
{
    if n > 0 {
        let m = (n - 1) as nat;
        assert(v / 256 < pow256(m)) by (nonlinear_arith)
            requires v < 256 * pow256(m), pow256(m) >= 1;
        lemma_be_value_be_bytes(v / 256, m);
        lemma_be_bytes_len(v / 256, m);
        let b = be_bytes(v, n);
        assert(b.drop_last() =~= be_bytes(v / 256, m));
        assert(b.last() == (v % 256) as u8);
        assert((v / 256) * 256 + v % 256 == v) by (nonlinear_arith);
    } else {
        assert(v == 0);
    }
}

/// Encoding the value of an `n`-byte sequence returns the sequence.
pub proof fn lemma_be_bytes_be_value(b: Seq<u8>)
    ensures
        be_bytes(be_value(b), b.len()) == b,
    decreases b.len(),
{
    if b.len() > 0 {
        let v = be_value(b);
        let front = be_value(b.drop_last());
        lemma_be_bytes_be_value(b.drop_last());
        assert(v / 256 == front && v % 256 == b.last()) by (nonlinear_arith)
            requires v == front * 256 + b.last(), 0 <= b.last() < 256;
        assert(be_bytes(v, b.len()) =~= b);
    } else {
        assert(be_bytes(be_value(b), b.len()) =~= b);
    }
}

pub proof fn lemma_pow256_mono(a: nat, b: nat)
    requires
        a <= b,
    ensures
        pow256(a) <= pow256(b),
    decreases b,
{
    if a < b {
        lemma_pow256_mono(a, (b - 1) as nat);
        assert(pow256(b) == 256 * pow256((b - 1) as nat));
    }
}

pub proof fn lemma_pow256_values()
    ensures
        pow256(1) == 0x100,
        pow256(2) == 0x10000,
        pow256(4) == 0x1_0000_0000,
        pow256(8) == 0x1_0000_0000_0000_0000,
{
    reveal_with_fuel(pow256, 9);
}

/// Write the `n`-byte big-endian encoding of `v` to `out`.
pub fn put_be_uint(out: &mut Vec<u8>, v: u64, n: usize)
    requires
        n <= 8,
    ensures
        final(out)@ == old(out)@ + be_bytes(v as nat, n as nat),
    decreases n,
{
    proof {
        lemma_be_bytes_len(v as nat, n as nat);
    }
    if n > 0 {
        put_be_uint(out, v / 256, n - 1);
        out.push((v % 256) as u8);
        assert(out@ =~= old(out)@ + be_bytes(v as nat, n as nat));
    } else {
        assert(out@ =~= old(out)@ + be_bytes(v as nat, n as nat));
    }
}

} // verus!
