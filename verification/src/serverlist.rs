//! The server directory: a mapping from lowercased server name, and from an
//! auto-generated short alias, to the server's address. Constructed once,
//! immutable after construction. A socket address is the address with the
//! fixed game port.

use vstd::prelude::*;
use vstd::string::StringExecFns;
use vstd::string::StrSliceExecFns;

verus! {

/// The fixed TCP port game servers listen on.
pub const GAME_PORT: u16 = 2050;

/// What `str::to_lowercase` returns for the given characters. Unicode case
/// folding takes pages to state; the name stands for its exact result,
/// which depends on the characters alone.
pub uninterp spec fn lower_of(s: Seq<char>) -> Seq<char>;

/// Relies on `str::to_lowercase`: the result depends on the characters
/// alone.
#[verifier::external_body]
fn to_lowercase_str(s: &str) -> (r: String)
    ensures
        r@ == lower_of(s@),
{
    s.to_lowercase()
}

/// The given name, lowercased.
pub fn lowercased(name: &str) -> (r: String)
    ensures
        r@ == lower_of(name@),
{
    to_lowercase_str(name)
}

/// `s` with every occurrence of `pat` replaced by `to`, scanning left to
/// right without overlap.
pub open spec fn replace_chars(s: Seq<char>, pat: Seq<char>, to: Seq<char>) -> Seq<char>
    decreases s.len(),
{
    if s.len() == 0 {
        s
    } else if pat.len() > 0 && pat.len() <= s.len() && s.take(pat.len() as int) == pat {
        to + replace_chars(s.skip(pat.len() as int), pat, to)
    } else {
        seq![s[0]] + replace_chars(s.drop_first(), pat, to)
    }
}

/// Whether `pat` occurs in `s` starting at `i`.
fn match_at(s: &str, n: usize, pat: &str, m: usize, i: usize) -> (b: bool)
    requires
        n == s@.len(),
        m == pat@.len(),
        i + m <= n,
    ensures
        b == (s@.subrange(i as int, i + m) == pat@),
{
    let mut j: usize = 0;
    while j < m
        invariant
            j <= m,
            n == s@.len(),
            m == pat@.len(),
            i + m <= n,
            forall|x: int| 0 <= x < j ==> s@[i + x] == pat@[x],
        decreases m - j,
    {
        if s.get_char(i + j) != pat.get_char(j) {
            proof {
                assert(s@.subrange(i as int, i + m)[j as int] == s@[i + j]);
                assert(!(s@.subrange(i as int, i + m) =~= pat@));
            }
            return false;
        }
        j = j + 1;
    }
    proof {
        assert(s@.subrange(i as int, i + m) =~= pat@);
    }
    true
}

/// `s` with every occurrence of `pat` replaced by `to`, scanning left to
/// right without overlap.
pub fn replace_str(s: &str, pat: &str, to: &str) -> (r: String)
    requires
        pat@.len() > 0,
    ensures
        r@ == replace_chars(s@, pat@, to@),
{
    let n = s.unicode_len();
    let m = pat.unicode_len();
    let mut out = String::new();
    let mut i: usize = 0;
    proof {
        assert(s@.skip(0) =~= s@);
        assert(out@ + replace_chars(s@, pat@, to@) =~= replace_chars(s@, pat@, to@));
    }
    while i < n
        invariant
            i <= n,
            n == s@.len(),
            m == pat@.len(),
            m > 0,
            out@ + replace_chars(s@.skip(i as int), pat@, to@) == replace_chars(s@, pat@, to@),
        decreases n - i,
    {
        let ghost rem = s@.skip(i as int);
        if m <= n - i && match_at(s, n, pat, m, i) {
            proof {
                assert(rem.take(m as int) =~= s@.subrange(i as int, i + m));
                assert(rem.skip(m as int) =~= s@.skip(i + m));
            }
            out.append(to);
            i = i + m;
        } else {
            proof {
                if m <= rem.len() {
                    assert(rem.take(m as int) =~= s@.subrange(i as int, i + m));
                }
                assert(rem.drop_first() =~= s@.skip(i + 1));
            }
            let c = s.substring_char(i, i + 1);
            proof {
                assert(c@ =~= seq![s@[i as int]]);
            }
            out.append(c);
            i = i + 1;
        }
    }
    proof {
        assert(s@.skip(n as int) =~= Seq::<char>::empty());
        assert(out@ =~= out@ + replace_chars(s@.skip(n as int), pat@, to@));
    }
    out
}

/// The abbreviation of an already-lowercased name: the fixed substring
/// substitutions, applied in this order.
pub open spec fn abbreviate_chars(s: Seq<char>) -> Seq<char> {
    replace_chars(
        replace_chars(
            replace_chars(
                replace_chars(
                    replace_chars(
                        replace_chars(replace_chars(s, "east"@, "e"@), "west"@, "w"@),
                        "south"@,
                        "s"@,
                    ),
                    "north"@,
                    "n"@,
                ),
                "asia"@,
                "as"@,
            ),
            "mid"@,
            "m"@,
        ),
        "australia"@,
        "aus"@,
    )
}

/// The abbreviation of a server name: lowercase it, then apply the fixed
/// substring substitutions in order.
pub open spec fn abbreviate_spec(s: Seq<char>) -> Seq<char> {
    abbreviate_chars(lower_of(s))
}

/// Automatically generate an abbreviated form of the given server name by
/// lowercasing it and applying a fixed ordered list of substring
/// substitutions.
pub fn abbreviate(name: &str) -> (r: String)
    ensures
        r@ == abbreviate_spec(name@),
{
    proof {
        reveal_strlit("east");
        reveal_strlit("west");
        reveal_strlit("south");
        reveal_strlit("north");
        reveal_strlit("asia");
        reveal_strlit("mid");
        reveal_strlit("australia");
    }
    let lowered = to_lowercase_str(name);
    let a = replace_str(lowered.as_str(), "east", "e");
    let b = replace_str(a.as_str(), "west", "w");
    let c = replace_str(b.as_str(), "south", "s");
    let d = replace_str(c.as_str(), "north", "n");
    let e = replace_str(d.as_str(), "asia", "as");
    let f = replace_str(e.as_str(), "mid", "m");
    replace_str(f.as_str(), "australia", "aus")
}

/// Automatically generate an abbreviated form of the given server name.
/// The same substitutions as `abbreviate`, under the directory's own name
/// for them.
pub fn abbreviate_server_name(name: &str) -> (r: String)
    ensures
        r@ == abbreviate_spec(name@),
{
    abbreviate(name)
}

/// A socket address for a game server: its address text and the port.
#[derive(Debug, PartialEq, Clone)]
pub struct ServerAddr {
    /// The server's address, as it appeared in the directory.
    pub ip: String,
    /// The TCP port to connect to.
    pub port: u16,
}

/// The address paired with the first occurrence of a name.
pub open spec fn sl_lookup(entries: Seq<(Seq<char>, Seq<char>)>, name: Seq<char>) -> Option<
    Seq<char>,
>
    decreases entries.len(),
{
    if entries.len() == 0 {
        None
    } else if entries[0].0 == name {
        Some(entries[0].1)
    } else {
        sl_lookup(entries.drop_first(), name)
    }
}

/// `entries` with the binding for `k` set to `v`: updated in place when
/// present, appended when absent.
pub open spec fn sl_insert_over(
    entries: Seq<(Seq<char>, Seq<char>)>,
    k: Seq<char>,
    v: Seq<char>,
) -> Seq<(Seq<char>, Seq<char>)>
    decreases entries.len(),
{
    if entries.len() == 0 {
        seq![(k, v)]
    } else if entries[0].0 == k {
        seq![(k, v)] + entries.drop_first()
    } else {
        seq![entries[0]] + sl_insert_over(entries.drop_first(), k, v)
    }
}

/// `entries` with `(k, v)` appended only when `k` is absent: an existing
/// binding wins.
pub open spec fn sl_insert_soft(
    entries: Seq<(Seq<char>, Seq<char>)>,
    k: Seq<char>,
    v: Seq<char>,
) -> Seq<(Seq<char>, Seq<char>)> {
    if sl_lookup(entries, k) matches Some(_) {
        entries
    } else {
        entries.push((k, v))
    }
}

/// The directory built from the supplied `(name, address)` pairs, in
/// order: each name is lowercased and inserted overwriting, then its alias
/// is inserted without overwriting.
pub open spec fn sl_build(
    acc: Seq<(Seq<char>, Seq<char>)>,
    input: Seq<(Seq<char>, Seq<char>)>,
) -> Seq<(Seq<char>, Seq<char>)>
    decreases input.len(),
{
    if input.len() == 0 {
        acc
    } else {
        let low = lower_of(input[0].0);
        let alias = abbreviate_chars(lower_of(low));
        sl_build(
            sl_insert_soft(sl_insert_over(acc, low, input[0].1), alias, input[0].1),
            input.drop_first(),
        )
    }
}

/// The names of the supplied pairs, as character sequences.
pub open spec fn sl_models(entries: Seq<(String, String)>) -> Seq<(Seq<char>, Seq<char>)> {
    Seq::new(entries.len(), |i: int| (entries[i].0@, entries[i].1@))
}

/// A list of remote game servers: lowercased names and auto-generated
/// aliases, each mapped to the server's address.
pub struct ServerList {
    entries: Vec<(String, String)>,
}

impl ServerList {
    /// The name-to-address bindings of this list, in insertion order.
    pub closed spec fn view(self) -> Seq<(Seq<char>, Seq<char>)> {
        sl_models(self.entries@)
    }

    /// Create a new `ServerList` from `(name, address)` pairs: every name
    /// is lowercased and bound to its address, and its abbreviation is
    /// also bound unless that would collide with an existing binding.
    pub fn new(servers: &Vec<(String, String)>) -> (r: ServerList)
        ensures
            r@ == sl_build(Seq::empty(), sl_models(servers@)),
    {
        let mut list = ServerList { entries: Vec::new() };
        let mut i: usize = 0;
        proof {
            assert(sl_models(servers@).skip(0) =~= sl_models(servers@));
            assert(list@ =~= Seq::<(Seq<char>, Seq<char>)>::empty());
        }
        while i < servers.len()
            invariant
                i <= servers@.len(),
                sl_build(list@, sl_models(servers@).skip(i as int)) == sl_build(
                    Seq::empty(),
                    sl_models(servers@),
                ),
            decreases servers@.len() - i,
        {
            let ghost pre = sl_models(servers@).skip(i as int);
            let (name, ip) = (&servers[i].0, &servers[i].1);
            proof {
                assert(pre[0] == (name@, ip@));
                assert(pre.drop_first() =~= sl_models(servers@).skip(i + 1));
            }
            let low = to_lowercase_str(name.as_str());
            let alias = abbreviate(low.as_str());
            list.insert_over(&low, ip);
            list.insert_soft(&alias, ip);
            i = i + 1;
        }
        proof {
            assert(sl_models(servers@).skip(servers@.len() as int) =~= Seq::<
                (Seq<char>, Seq<char>),
            >::empty());
        }
        list
    }

    /// Bind `k` to `v`, replacing any existing binding for `k`.
    fn insert_over(&mut self, k: &String, v: &String)
        ensures
            final(self)@ == sl_insert_over(old(self)@, k@, v@),
    {
        let mut i: usize = 0;
        let n = self.entries.len();
        proof {
            assert(self@.skip(0) =~= self@);
        }
        while i < n
            invariant
                i <= n,
                n == self.entries@.len(),
                *self == *old(self),
                forall|j: int| 0 <= j < i ==> (#[trigger] old(self)@[j]).0 != k@,
                sl_insert_over(old(self)@, k@, v@) == old(self)@.take(i as int) + sl_insert_over(
                    old(self)@.skip(i as int),
                    k@,
                    v@,
                ),
            decreases n - i,
        {
            let ghost rem = old(self)@.skip(i as int);
            proof {
                assert(rem[0] == old(self)@[i as int]);
                assert(rem.drop_first() =~= old(self)@.skip(i + 1));
            }
            if self.entries[i].0 == *k {
                let mut entries = Vec::new();
                core::mem::swap(&mut entries, &mut self.entries);
                entries.set(i, (k.clone(), v.clone()));
                self.entries = entries;
                proof {
                    assert(sl_insert_over(rem, k@, v@) =~= seq![(k@, v@)] + rem.drop_first());
                    assert(self@ =~= old(self)@.take(i as int) + (seq![(k@, v@)]
                        + rem.drop_first()));
                }
                return ;
            }
            proof {
                assert(old(self)@.take(i + 1) =~= old(self)@.take(i as int) + seq![
                    old(self)@[i as int],
                ]);
                assert(old(self)@.take(i as int) + (seq![rem[0]] + sl_insert_over(
                    rem.drop_first(),
                    k@,
                    v@,
                )) =~= old(self)@.take(i + 1) + sl_insert_over(old(self)@.skip(i + 1), k@, v@));
            }
            i = i + 1;
        }
        self.entries.push((k.clone(), v.clone()));
        proof {
            assert(old(self)@.skip(n as int) =~= Seq::<(Seq<char>, Seq<char>)>::empty());
            assert(self@ =~= old(self)@.take(n as int) + seq![(k@, v@)]);
            assert(old(self)@.take(n as int) =~= old(self)@);
        }
    }

    /// Bind `k` to `v` only when `k` is not yet bound.
    fn insert_soft(&mut self, k: &String, v: &String)
        ensures
            final(self)@ == sl_insert_soft(old(self)@, k@, v@),
    {
        if self.lookup(k.as_str()).is_some() {
            return ;
        }
        self.entries.push((k.clone(), v.clone()));
        proof {
            assert(self@ =~= old(self)@.push((k@, v@)));
        }
    }

    /// The address bound to exactly this name, if any.
    fn lookup(&self, name: &str) -> (res: Option<&String>)
        ensures
            match res {
                Some(ip) => sl_lookup(self@, name@) == Some(ip@),
                None => sl_lookup(self@, name@) matches None,
            },
    {
        let key = String::from_str(name);
        let mut i: usize = 0;
        let n = self.entries.len();
        proof {
            assert(self@.skip(0) =~= self@);
        }
        while i < n
            invariant
                i <= n,
                n == self.entries@.len(),
                key@ == name@,
                sl_lookup(self@, name@) == sl_lookup(self@.skip(i as int), name@),
            decreases n - i,
        {
            proof {
                assert(self@.skip(i as int)[0] == self@[i as int]);
                assert(self@.skip(i as int).drop_first() =~= self@.skip(i + 1));
            }
            if self.entries[i].0 == key {
                return Some(&self.entries[i].1);
            }
            i = i + 1;
        }
        None
    }

    /// The bindings of this list: each lowercased name or alias with its
    /// address, in insertion order.
    pub fn get_map(&self) -> (res: &Vec<(String, String)>)
        ensures
            sl_models(res@) == self@,
    {
        &self.entries
    }

    /// The number of bindings.
    pub fn len(&self) -> (n: usize)
        ensures
            n == self@.len(),
    {
        proof {
            assert(self@.len() == self.entries@.len());
        }
        self.entries.len()
    }

    /// Get the address of a server by lowercased name or alias.
    pub fn get_ip(&self, name: &str) -> (res: Option<String>)
        ensures
            match res {
                Some(ip) => sl_lookup(self@, name@) == Some(ip@),
                None => sl_lookup(self@, name@) matches None,
            },
    {
        match self.lookup(name) {
            Some(ip) => Some(ip.clone()),
            None => None,
        }
    }

    /// Get the socket address to connect to a server: its address with the
    /// fixed game port.
    pub fn get_socket(&self, name: &str) -> (res: Option<ServerAddr>)
        ensures
            match res {
                Some(a) => sl_lookup(self@, name@) == Some(a.ip@) && a.port == GAME_PORT,
                None => sl_lookup(self@, name@) matches None,
            },
    {
        match self.get_ip(name) {
            Some(ip) => Some(ServerAddr { ip, port: GAME_PORT }),
            None => None,
        }
    }
}

} // verus!
