//! The stream cipher applied to message payloads: RC4, seeded from one half
//! of the shared binary key. `process` XORs the keystream over a buffer in
//! place, advancing the cipher state by the buffer's length. The keystream
//! is specified byte by byte as a function of the key and the position, so
//! contracts elsewhere can speak of exactly which bytes were XORed where.

use vstd::prelude::*;

verus! {

/// The state of one keystream generator: the byte permutation and the two
/// walking indices.
#[verifier::ext_equal]
pub struct KeystreamState {
    pub s: Seq<u8>,
    pub i: u8,
    pub j: u8,
}

/// The identity permutation the key schedule starts from.
pub open spec fn rc4_identity() -> Seq<u8> {
    Seq::new(256, |t: int| t as u8)
}

/// The key schedule from position `t` on: each step folds one key byte into
/// the running index and swaps two entries of the permutation.
pub open spec fn ksa_from(s: Seq<u8>, j: u8, t: int, key: Seq<u8>) -> Seq<u8>
    recommends
        s.len() == 256,
        key.len() >= 1,
    decreases 256 - t,
{
    if t < 0 || t >= 256 {
        s
    } else {
        let j2 = (((j as int) + (s[t] as int) + (key[t % (key.len() as int)] as int)) % 256) as u8;
        let s2 = s.update(t, s[j2 as int]).update(j2 as int, s[t]);
        ksa_from(s2, j2, t + 1, key)
    }
}

/// The cipher state before any keystream byte has been produced.
pub open spec fn rc4_init(key: Seq<u8>) -> KeystreamState {
    KeystreamState { s: ksa_from(rc4_identity(), 0, 0, key), i: 0, j: 0 }
}

/// One generation step: advance both indices and swap their entries.
pub open spec fn prga_next(st: KeystreamState) -> KeystreamState
    recommends
        st.s.len() == 256,
{
    let i2 = (((st.i as int) + 1) % 256) as u8;
    let j2 = (((st.j as int) + (st.s[i2 as int] as int)) % 256) as u8;
    let s2 = st.s.update(i2 as int, st.s[j2 as int]).update(j2 as int, st.s[i2 as int]);
    KeystreamState { s: s2, i: i2, j: j2 }
}

/// The keystream byte produced by the step out of `st`.
pub open spec fn prga_out(st: KeystreamState) -> u8
    recommends
        st.s.len() == 256,
{
    let st2 = prga_next(st);
    st2.s[(((st2.s[st2.i as int] as int) + (st2.s[st2.j as int] as int)) % 256) as int]
}

/// The cipher state after `n` keystream bytes.
pub open spec fn stream_state(key: Seq<u8>, n: nat) -> KeystreamState
    decreases n,
{
    if n == 0 {
        rc4_init(key)
    } else {
        prga_next(stream_state(key, (n - 1) as nat))
    }
}

/// Byte `n` of the keystream for `key`: a function of the key and the
/// position alone.
pub open spec fn keystream(key: Seq<u8>, n: nat) -> u8 {
    prga_out(stream_state(key, n))
}

/// `data` XORed with the keystream for `key` starting at position `pos`.
pub open spec fn xor_keystream(data: Seq<u8>, key: Seq<u8>, pos: nat) -> Seq<u8> {
    Seq::new(data.len(), |k: int| data[k] ^ keystream(key, (pos + k) as nat))
}

/// The key schedule keeps the permutation's length.
pub proof fn lemma_ksa_len(s: Seq<u8>, j: u8, t: int, key: Seq<u8>)
    requires
        s.len() == 256,
    ensures
        ksa_from(s, j, t, key).len() == 256,
    decreases 256 - t,
{
    if 0 <= t < 256 {
        let j2 = (((j as int) + (s[t] as int) + (key[t % (key.len() as int)] as int)) % 256) as u8;
        let s2 = s.update(t, s[j2 as int]).update(j2 as int, s[t]);
        lemma_ksa_len(s2, j2, t + 1, key);
    }
}

/// The generator state always keeps a 256-byte permutation.
pub proof fn lemma_stream_state_len(key: Seq<u8>, n: nat)
    ensures
        stream_state(key, n).s.len() == 256,
    decreases n,
{
    if n == 0 {
        lemma_ksa_len(rc4_identity(), 0, 0, key);
    } else {
        lemma_stream_state_len(key, (n - 1) as nat);
    }
}

/// Law: XORing a buffer with the same keystream twice returns the buffer;
/// deciphering is enciphering with the peer's matching state.
pub proof fn lemma_xor_keystream_involution(data: Seq<u8>, key: Seq<u8>, pos: nat)
    ensures
        xor_keystream(xor_keystream(data, key, pos), key, pos) == data,
{
    let once = xor_keystream(data, key, pos);
    let twice = xor_keystream(once, key, pos);
    assert forall|k: int| 0 <= k < data.len() implies twice[k] == data[k] by {
        let ks = keystream(key, (pos + k) as nat);
        let d = data[k];
        assert(((d ^ ks) ^ ks) == d) by (bit_vector);
    }
    assert(twice =~= data);
}

/// One keystream generator. Deterministic given its seed key; never
/// reseekable; advanced only by `process`.
pub struct Rc4 {
    s: Vec<u8>,
    i: u8,
    j: u8,
    key: Ghost<Seq<u8>>,
    pos: Ghost<nat>,
}

impl Rc4 {
    /// The generator is the state machine's state at its position.
    pub closed spec fn wf(self) -> bool {
        &&& 1 <= self.key@.len() <= 256
        &&& self.s@.len() == 256
        &&& KeystreamState { s: self.s@, i: self.i, j: self.j } == stream_state(
            self.key@,
            self.pos@,
        )
    }

    /// The seed key of this generator.
    pub closed spec fn key(self) -> Seq<u8> {
        self.key@
    }

    /// How many keystream bytes this generator has produced.
    pub closed spec fn pos(self) -> nat {
        self.pos@
    }

    /// Seed a new generator from a binary key.
    pub fn new(key: &[u8]) -> (r: Rc4)
        requires
            1 <= key@.len() <= 256,
        ensures
            r.wf(),
            r.key() == key@,
            r.pos() == 0,
    {
        let klen = key.len();
        let mut s: Vec<u8> = Vec::new();
        let mut t: usize = 0;
        proof {
            assert(s@ =~= rc4_identity().take(0));
        }
        while t < 256
            invariant
                t <= 256,
                s@ == rc4_identity().take(t as int),
            decreases 256 - t,
        {
            s.push(t as u8);
            t = t + 1;
            proof {
                assert(s@ =~= rc4_identity().take(t as int));
            }
        }
        proof {
            assert(s@ =~= rc4_identity());
        }
        let ghost s0 = s@;
        let mut j: u8 = 0;
        let mut t: usize = 0;
        while t < 256
            invariant
                t <= 256,
                s@.len() == 256,
                1 <= key@.len() <= 256,
                klen == key@.len(),
                ksa_from(s@, j, t as int, key@) == ksa_from(rc4_identity(), 0, 0, key@),
            decreases 256 - t,
        {
            let j2 = ((j as u16 + s[t] as u16 + key[t % klen] as u16) % 256) as u8;
            let a = s[t];
            let b = s[j2 as usize];
            s.set(t, b);
            s.set(j2 as usize, a);
            proof {
                assert((t as int) % (key@.len() as int) == ((t % klen) as int));
            }
            j = j2;
            t = t + 1;
        }
        let r = Rc4 { s, i: 0, j: 0, key: Ghost(key@), pos: Ghost(0) };
        proof {
            assert(KeystreamState { s: r.s@, i: 0, j: 0 } =~= rc4_init(key@));
        }
        r
    }

    /// Make an identical generator: same key, same position, so it will
    /// produce the same keystream from here on.
    pub fn duplicate(&self) -> (r: Rc4)
        requires
            self.wf(),
        ensures
            r.wf(),
            r.key() == self.key(),
            r.pos() == self.pos(),
    {
        Rc4 { s: self.s.clone(), i: self.i, j: self.j, key: Ghost(self.key@), pos: Ghost(
            self.pos@,
        ) }
    }

    /// XOR the keystream over `data` in place, advancing this generator by
    /// `data.len()` positions.
    pub fn process(&mut self, data: &mut Vec<u8>)
        requires
            old(self).wf(),
        ensures
            final(self).wf(),
            final(self).key() == old(self).key(),
            final(self).pos() == old(self).pos() + old(data)@.len(),
            final(data)@ == xor_keystream(old(data)@, old(self).key(), old(self).pos()),
    {
        let ghost key = self.key@;
        let ghost pos0 = self.pos@;
        let len = data.len();
        let mut k: usize = 0;
        while k < len
            invariant
                k <= len,
                len == data@.len(),
                data@.len() == old(data)@.len(),
                self.key@ == key,
                self.pos@ == pos0 + k,
                1 <= key.len() <= 256,
                self.s@.len() == 256,
                (KeystreamState { s: self.s@, i: self.i, j: self.j }) == stream_state(
                    key,
                    self.pos@,
                ),
                forall|x: int| 0 <= x < k ==> data@[x] == old(data)@[x] ^ keystream(
                    key,
                    (pos0 + x) as nat,
                ),
                forall|x: int| k <= x < len ==> data@[x] == old(data)@[x],
            decreases len - k,
        {
            let ghost cur = KeystreamState { s: self.s@, i: self.i, j: self.j };
            let i2 = ((self.i as u16 + 1) % 256) as u8;
            let j2 = ((self.j as u16 + self.s[i2 as usize] as u16) % 256) as u8;
            let a = self.s[i2 as usize];
            let b = self.s[j2 as usize];
            self.s.set(i2 as usize, b);
            self.s.set(j2 as usize, a);
            proof {
                assert(KeystreamState { s: self.s@, i: i2, j: j2 } =~= prga_next(cur));
            }
            let idx = ((self.s[i2 as usize] as u16 + self.s[j2 as usize] as u16) % 256) as usize;
            let kbyte = self.s[idx];
            proof {
                assert(kbyte == prga_out(cur));
                assert(prga_next(cur) == stream_state(key, (pos0 + k + 1) as nat));
                assert(prga_out(cur) == keystream(key, (pos0 + k) as nat));
            }
            self.i = i2;
            self.j = j2;
            let d = data[k];
            data.set(k, d ^ kbyte);
            proof {
                self.pos@ = self.pos@ + 1;
            }
            k = k + 1;
        }
        proof {
            assert(data@ =~= xor_keystream(old(data)@, key, pos0));
        }
    }
}

} // verus!
