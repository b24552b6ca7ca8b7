//! Mappings extracted from the official game client: the shared binary
//! cipher key and the bidirectional table between 8-bit wire packet IDs and
//! this library's internal packet IDs. Constructed once per run and
//! immutable thereafter; shared by all concurrent relays.

use crate::packets::InternalPacketId;
use crate::rc4::Rc4;
use vstd::prelude::*;
use vstd::string::StringSliceAdditionalSpecFns;
use vstd::utf8::encode_utf8;

verus! {

/// The required length in bytes of the binary cipher key.
pub const KEY_LEN: usize = 26;

/// Whether a byte is an ASCII hexadecimal digit.
pub open spec fn is_hex_digit(b: u8) -> bool {
    (0x30 <= b <= 0x39) || (0x41 <= b <= 0x46) || (0x61 <= b <= 0x66)
}

/// The value of one hexadecimal digit byte.
pub open spec fn hex_digit_val(b: u8) -> u8
    recommends
        is_hex_digit(b),
{
    if 0x30 <= b <= 0x39 {
        (b - 0x30) as u8
    } else if 0x41 <= b <= 0x46 {
        (b - 0x41 + 10) as u8
    } else {
        (b - 0x61 + 10) as u8
    }
}

/// Whether every byte of `s` is a hexadecimal digit.
pub open spec fn all_hex_digits(s: Seq<u8>) -> bool {
    forall|i: int| 0 <= i < s.len() ==> is_hex_digit(#[trigger] s[i])
}

/// The bytes a hexadecimal digit string decodes to, two digits per byte,
/// high digit first.
pub open spec fn hex_bytes(s: Seq<u8>) -> Seq<u8>
    recommends
        s.len() % 2 == 0,
        all_hex_digits(s),
{
    Seq::new(s.len() / 2, |i: int| (hex_digit_val(s[2 * i]) * 16 + hex_digit_val(s[2 * i + 1])) as u8)
}

/// The index of the first byte of `s` that is not a hexadecimal digit, or
/// `-1` when all are.
pub open spec fn first_non_digit(s: Seq<u8>) -> int
    decreases s.len(),
{
    if s.len() == 0 {
        -1
    } else if !is_hex_digit(s[0]) {
        0
    } else {
        let r = first_non_digit(s.drop_first());
        if r < 0 {
            -1
        } else {
            r + 1
        }
    }
}

/// There is a non-digit exactly when `first_non_digit` points at one.
pub proof fn lemma_first_non_digit(s: Seq<u8>)
    ensures
        all_hex_digits(s) <==> first_non_digit(s) < 0,
        !all_hex_digits(s) ==> 0 <= first_non_digit(s) < s.len() && !is_hex_digit(
            s[first_non_digit(s)],
        ),
    decreases s.len(),
{
    if s.len() > 0 {
        lemma_first_non_digit(s.drop_first());
        assert(forall|i: int| 0 < i < s.len() ==> s.drop_first()[i - 1] == #[trigger] s[i]);
        if is_hex_digit(s[0]) && all_hex_digits(s.drop_first()) {
            assert(forall|i: int| 0 <= i < s.len() ==> is_hex_digit(#[trigger] s[i]));
        }
    }
}

/// A mirror of the errors the hex decoder can report.
#[derive(Debug, Clone, PartialEq, Eq)]
pub enum HexError {
    /// A byte of the string is not a hexadecimal digit.
    InvalidHexCharacter {
        /// The offending character.
        c: char,
        /// Its byte index in the string.
        index: usize,
    },
    /// The string holds an odd number of digits.
    OddLength,
    /// The decoded length does not match a fixed-size target; never
    /// reported when decoding to a growable buffer.
    InvalidStringLength,
}

/// Relies on `hex::decode`: an odd-length string is rejected first; then
/// the digits are decoded in pairs, high digit first, and the first byte
/// that is not a digit is reported with its index.
#[verifier::external_body]
fn hex_decode(s: &str) -> (r: Result<Vec<u8>, HexError>)
    ensures
        r matches Ok(v) ==> s.spec_bytes().len() % 2 == 0 && all_hex_digits(s.spec_bytes())
            && v@ == hex_bytes(s.spec_bytes()),
        (r matches Ok(_)) <==> (s.spec_bytes().len() % 2 == 0 && all_hex_digits(s.spec_bytes())),
        r matches Err(e) ==> e == (if s.spec_bytes().len() % 2 != 0 {
            HexError::OddLength
        } else {
            HexError::InvalidHexCharacter {
                c: s.spec_bytes()[first_non_digit(s.spec_bytes())] as char,
                index: first_non_digit(s.spec_bytes()) as usize,
            }
        }),
{
    match hex::decode(s) {
        Ok(v) => Ok(v),
        Err(hex::FromHexError::InvalidHexCharacter { c, index }) => Err(
            HexError::InvalidHexCharacter { c, index },
        ),
        Err(hex::FromHexError::OddLength) => Err(HexError::OddLength),
        Err(hex::FromHexError::InvalidStringLength) => Err(HexError::InvalidStringLength),
    }
}

/// The internal ID paired with the first occurrence of a wire ID.
pub open spec fn lookup_internal(pairs: Seq<(u8, InternalPacketId)>, game_id: u8) -> Option<
    InternalPacketId,
>
    decreases pairs.len(),
{
    if pairs.len() == 0 {
        None
    } else if pairs[0].0 == game_id {
        Some(pairs[0].1)
    } else {
        lookup_internal(pairs.drop_first(), game_id)
    }
}

/// The wire ID paired with the first occurrence of an internal ID.
pub open spec fn lookup_game(pairs: Seq<(u8, InternalPacketId)>, internal_id: InternalPacketId) -> Option<
    u8,
>
    decreases pairs.len(),
{
    if pairs.len() == 0 {
        None
    } else if pairs[0].1 == internal_id {
        Some(pairs[0].0)
    } else {
        lookup_game(pairs.drop_first(), internal_id)
    }
}

/// Well-formedness of a mapping table: every wire ID appears at most once,
/// and every internal ID appears at most once.
pub open spec fn pm_wf(pairs: Seq<(u8, InternalPacketId)>) -> bool {
    forall|a: int, b: int|
        0 <= a < b < pairs.len() ==> (#[trigger] pairs[a]).0 != (#[trigger] pairs[b]).0
            && pairs[a].1 != pairs[b].1
}

/// A found wire ID names the pair that is also found by its internal ID.
pub proof fn lemma_lookup_pair(pairs: Seq<(u8, InternalPacketId)>, game_id: u8)
    requires
        pm_wf(pairs),
        lookup_internal(pairs, game_id) matches Some(_),
    ensures
        lookup_game(pairs, lookup_internal(pairs, game_id)->Some_0) == Some(game_id),
    decreases pairs.len(),
{
    let tail = pairs.drop_first();
    assert(forall|i: int| 0 < i < pairs.len() ==> tail[i - 1] == #[trigger] pairs[i]);
    if pairs[0].0 == game_id {
        let id = pairs[0].1;
        assert(lookup_game(pairs, id) == Some(game_id));
    } else {
        let id = lookup_internal(tail, game_id)->Some_0;
        lemma_lookup_pair(tail, game_id);
        lemma_lookup_member(tail, game_id);
        assert(pairs[0].1 != id);
    }
}

/// A found internal ID names the pair that is also found by its wire ID.
pub proof fn lemma_lookup_pair_rev(pairs: Seq<(u8, InternalPacketId)>, internal_id: InternalPacketId)
    requires
        pm_wf(pairs),
        lookup_game(pairs, internal_id) matches Some(_),
    ensures
        lookup_internal(pairs, lookup_game(pairs, internal_id)->Some_0) == Some(internal_id),
    decreases pairs.len(),
{
    let tail = pairs.drop_first();
    assert(forall|i: int| 0 < i < pairs.len() ==> tail[i - 1] == #[trigger] pairs[i]);
    if pairs[0].1 == internal_id {
        assert(lookup_internal(pairs, pairs[0].0) == Some(internal_id));
    } else {
        let g = lookup_game(tail, internal_id)->Some_0;
        lemma_lookup_pair_rev(tail, internal_id);
        lemma_lookup_member_rev(tail, internal_id);
        assert(pairs[0].0 != g);
    }
}

/// A successful wire-ID lookup names a pair of the table.
pub proof fn lemma_lookup_member(pairs: Seq<(u8, InternalPacketId)>, game_id: u8)
    requires
        lookup_internal(pairs, game_id) matches Some(_),
    ensures
        pairs.contains((game_id, lookup_internal(pairs, game_id)->Some_0)),
    decreases pairs.len(),
{
    let tail = pairs.drop_first();
    if pairs[0].0 == game_id {
        assert(pairs[0] == (game_id, pairs[0].1));
    } else {
        lemma_lookup_member(tail, game_id);
        let p = (game_id, lookup_internal(tail, game_id)->Some_0);
        let i = choose|i: int| 0 <= i < tail.len() && tail[i] == p;
        assert(pairs[i + 1] == p);
    }
}

/// A successful internal-ID lookup names a pair of the table.
pub proof fn lemma_lookup_member_rev(
    pairs: Seq<(u8, InternalPacketId)>,
    internal_id: InternalPacketId,
)
    requires
        lookup_game(pairs, internal_id) matches Some(_),
    ensures
        pairs.contains((lookup_game(pairs, internal_id)->Some_0, internal_id)),
    decreases pairs.len(),
{
    let tail = pairs.drop_first();
    if pairs[0].1 == internal_id {
        assert(pairs[0] == (pairs[0].0, internal_id));
    } else {
        lemma_lookup_member_rev(tail, internal_id);
        let p = (lookup_game(tail, internal_id)->Some_0, internal_id);
        let i = choose|i: int| 0 <= i < tail.len() && tail[i] == p;
        assert(pairs[i + 1] == p);
    }
}

/// Law: for every wire ID present in a well-formed table, mapping it to its
/// internal ID and back returns the same wire ID, and symmetrically for
/// every internal ID present.
pub proof fn lemma_mapping_bijective(pairs: Seq<(u8, InternalPacketId)>)
    requires
        pm_wf(pairs),
    ensures
        forall|g: u8|
            (#[trigger] lookup_internal(pairs, g)) matches Some(_) ==> lookup_game(
                pairs,
                lookup_internal(pairs, g)->Some_0,
            ) == Some(g),
        forall|id: InternalPacketId|
            (#[trigger] lookup_game(pairs, id)) matches Some(_) ==> lookup_internal(
                pairs,
                lookup_game(pairs, id)->Some_0,
            ) == Some(id),
{
    assert forall|g: u8|
        (#[trigger] lookup_internal(pairs, g)) matches Some(_) implies lookup_game(
        pairs,
        lookup_internal(pairs, g)->Some_0,
    ) == Some(g) by {
        lemma_lookup_pair(pairs, g);
    }
    assert forall|id: InternalPacketId|
        (#[trigger] lookup_game(pairs, id)) matches Some(_) implies lookup_internal(
        pairs,
        lookup_game(pairs, id)->Some_0,
    ) == Some(id) by {
        lemma_lookup_pair_rev(pairs, id);
    }
}

/// The bidirectional table between wire packet IDs and internal packet IDs.
/// Every wire ID maps to at most one internal ID and every internal ID to
/// at most one wire ID.
#[derive(Debug)]
pub struct PacketMappings {
    pairs: Vec<(u8, InternalPacketId)>,
}



impl PacketMappings {
    #[verifier::type_invariant]
    spec fn inv(self) -> bool {
        pm_wf(self.pairs@)
    }

    /// The pairs of this table, in insertion order.
    pub closed spec fn view(self) -> Seq<(u8, InternalPacketId)> {
        self.pairs@
    }

    /// An empty table.
    pub fn new() -> (r: PacketMappings)
        ensures
            r@ == Seq::<(u8, InternalPacketId)>::empty(),
            pm_wf(r@),
    {
        PacketMappings { pairs: Vec::new() }
    }

    /// Add one wire/internal pair. The pair is refused, and nothing
    /// changes, when either side is already present.
    pub fn insert(&mut self, game_id: u8, internal_id: InternalPacketId) -> (ok: bool)
        ensures
            ok <==> (lookup_internal(old(self)@, game_id) matches None && lookup_game(
                old(self)@,
                internal_id,
            ) matches None),
            ok ==> final(self)@ == old(self)@.push((game_id, internal_id)),
            !ok ==> final(self)@ == old(self)@,
            pm_wf(final(self)@),
    {
        proof {
            use_type_invariant(&*self);
        }
        if self.get_internal_id(game_id).is_some() {
            return false;
        }
        if self.get_game_id(internal_id).is_some() {
            return false;
        }
        proof {
            lemma_lookup_absent(self.pairs@, game_id);
            lemma_lookup_absent_rev(self.pairs@, internal_id);
        }
        let mut pairs: Vec<(u8, InternalPacketId)> = Vec::new();
        core::mem::swap(&mut pairs, &mut self.pairs);
        pairs.push((game_id, internal_id));
        self.pairs = pairs;
        true
    }

    /// The number of pairs in the table.
    pub fn len(&self) -> (n: usize)
        ensures
            n == self@.len(),
    {
        self.pairs.len()
    }

    /// Map a wire packet ID to an internal packet ID, if one is present.
    pub fn get_internal_id(&self, game_id: u8) -> (res: Option<InternalPacketId>)
        ensures
            res == lookup_internal(self@, game_id),
    {
        let mut i: usize = 0;
        let n = self.pairs.len();
        proof {
            assert(self.pairs@.skip(0) =~= self.pairs@);
        }
        while i < n
            invariant
                i <= n,
                n == self.pairs@.len(),
                lookup_internal(self.pairs@, game_id) == lookup_internal(
                    self.pairs@.skip(i as int),
                    game_id,
                ),
            decreases n - i,
        {
            let (g, id) = self.pairs[i];
            proof {
                assert(self.pairs@.skip(i as int)[0] == self.pairs@[i as int]);
                assert(self.pairs@.skip(i as int).drop_first() =~= self.pairs@.skip(i + 1));
            }
            if g == game_id {
                return Some(id);
            }
            i = i + 1;
        }
        None
    }

    /// Map an internal packet ID to a wire packet ID, if one is present.
    pub fn get_game_id(&self, internal_id: InternalPacketId) -> (res: Option<u8>)
        ensures
            res == lookup_game(self@, internal_id),
    {
        let mut i: usize = 0;
        let n = self.pairs.len();
        proof {
            assert(self.pairs@.skip(0) =~= self.pairs@);
        }
        while i < n
            invariant
                i <= n,
                n == self.pairs@.len(),
                lookup_game(self.pairs@, internal_id) == lookup_game(
                    self.pairs@.skip(i as int),
                    internal_id,
                ),
            decreases n - i,
        {
            let (g, id) = self.pairs[i];
            proof {
                assert(self.pairs@.skip(i as int)[0] == self.pairs@[i as int]);
                assert(self.pairs@.skip(i as int).drop_first() =~= self.pairs@.skip(i + 1));
            }
            if id == internal_id {
                return Some(g);
            }
            i = i + 1;
        }
        None
    }
}

/// A wire ID that is not found appears in no pair.
proof fn lemma_lookup_absent(pairs: Seq<(u8, InternalPacketId)>, game_id: u8)
    requires
        lookup_internal(pairs, game_id) matches None,
    ensures
        forall|i: int| 0 <= i < pairs.len() ==> (#[trigger] pairs[i]).0 != game_id,
    decreases pairs.len(),
{
    if pairs.len() > 0 {
        let tail = pairs.drop_first();
        lemma_lookup_absent(tail, game_id);
        assert(forall|i: int| 0 < i < pairs.len() ==> tail[i - 1] == #[trigger] pairs[i]);
    }
}

/// An internal ID that is not found appears in no pair.
proof fn lemma_lookup_absent_rev(pairs: Seq<(u8, InternalPacketId)>, internal_id: InternalPacketId)
    requires
        lookup_game(pairs, internal_id) matches None,
    ensures
        forall|i: int| 0 <= i < pairs.len() ==> (#[trigger] pairs[i]).1 != internal_id,
    decreases pairs.len(),
{
    if pairs.len() > 0 {
        let tail = pairs.drop_first();
        lemma_lookup_absent_rev(tail, internal_id);
        assert(forall|i: int| 0 < i < pairs.len() ==> tail[i - 1] == #[trigger] pairs[i]);
    }
}

/// An error constructing mappings.
#[derive(Debug, Clone, PartialEq, Eq)]
pub enum Error {
    /// The cipher key decodes to the wrong number of bytes.
    InvalidRC4Len(String, usize),
    /// The cipher key is not a valid hexadecimal string.
    InvalidRC4Hex(String, HexError),
}

/// Mappings extracted from the official game client: the binary cipher key
/// and the wire/internal packet ID table.
#[derive(Debug)]
pub struct Mappings {
    binary_rc4: Vec<u8>,
    packet_mappings: PacketMappings,
}

impl Mappings {
    #[verifier::type_invariant]
    spec fn inv(self) -> bool {
        self.binary_rc4@.len() == KEY_LEN
    }

    /// The binary cipher key, exactly `KEY_LEN` bytes.
    pub closed spec fn key(self) -> Seq<u8> {
        self.binary_rc4@
    }

    /// The wire/internal pairs of the packet ID table.
    pub closed spec fn table(self) -> Seq<(u8, InternalPacketId)> {
        self.packet_mappings@
    }

    /// Create a new set of mappings from a hex-encoded cipher key and a
    /// packet ID table. The key must decode to exactly `KEY_LEN` bytes.
    pub fn new(hex_rc4: String, packet_mappings: PacketMappings) -> (res: Result<Mappings, Error>)
        ensures
            ({
                let hb = encode_utf8(hex_rc4@);
                &&& (res matches Ok(m) ==> hb.len() == 2 * KEY_LEN && all_hex_digits(hb)
                    && m.key() == hex_bytes(hb) && m.table() == packet_mappings@)
                &&& (hb.len() % 2 != 0 ==> res == Err::<Mappings, Error>(
                    Error::InvalidRC4Hex(hex_rc4, HexError::OddLength),
                ))
                &&& (hb.len() % 2 == 0 && !all_hex_digits(hb) ==> res == Err::<Mappings, Error>(
                    Error::InvalidRC4Hex(
                        hex_rc4,
                        HexError::InvalidHexCharacter {
                            c: hb[first_non_digit(hb)] as char,
                            index: first_non_digit(hb) as usize,
                        },
                    ),
                ))
                &&& (hb.len() % 2 == 0 && all_hex_digits(hb) && hb.len() != 2 * KEY_LEN ==> res
                    == Err::<Mappings, Error>(Error::InvalidRC4Len(hex_rc4, (hb.len() / 2) as usize)))
                &&& (hb.len() % 2 == 0 && all_hex_digits(hb) && hb.len() == 2 * KEY_LEN ==> res
                    matches Ok(_))
            }),
    {
        let decoded = hex_decode(hex_rc4.as_str());
        match decoded {
            Err(e) => Err(Error::InvalidRC4Hex(hex_rc4, e)),
            Ok(b) => {
                if b.len() != KEY_LEN {
                    return Err(Error::InvalidRC4Len(hex_rc4, b.len()));
                }
                Ok(Mappings { binary_rc4: b, packet_mappings })
            },
        }
    }

    /// Get the complete mapping table for packet IDs.
    pub fn get_packet_mappings(&self) -> (res: &PacketMappings)
        ensures
            res@ == self.table(),
    {
        &self.packet_mappings
    }

    /// Map a wire packet ID to an internal packet ID, if one is present.
    pub fn get_internal_id(&self, game_id: u8) -> (res: Option<InternalPacketId>)
        ensures
            res == lookup_internal(self.table(), game_id),
    {
        self.packet_mappings.get_internal_id(game_id)
    }

    /// Map an internal packet ID to a wire packet ID, if one is present.
    pub fn get_game_id(&self, internal_id: InternalPacketId) -> (res: Option<u8>)
        ensures
            res == lookup_game(self.table(), internal_id),
    {
        self.packet_mappings.get_game_id(internal_id)
    }

    /// Get the two cipher generators, seeded from the two halves of the
    /// binary key: the first from its first half, the second from the rest.
    pub fn get_ciphers(&self) -> (res: (Rc4, Rc4))
        ensures
            res.0.wf() && res.0.key() == self.key().take(KEY_LEN as int / 2) && res.0.pos() == 0,
            res.1.wf() && res.1.key() == self.key().skip(KEY_LEN as int / 2) && res.1.pos() == 0,
    {
        proof {
            use_type_invariant(self);
        }
        let half0 = vstd::slice::slice_subrange(self.binary_rc4.as_slice(), 0, KEY_LEN / 2);
        let half1 = vstd::slice::slice_subrange(self.binary_rc4.as_slice(), KEY_LEN / 2, KEY_LEN);
        proof {
            assert(half0@ =~= self.key().take(KEY_LEN as int / 2));
            assert(half1@ =~= self.key().skip(KEY_LEN as int / 2));
        }
        (Rc4::new(half0), Rc4::new(half1))
    }
}

} // verus!
