//! The policy preamble: before any framing, a just-accepted connection may
//! send the literal policy file request, in which case the proxy replies
//! with a fixed cleartext policy document and closes. If the accumulated
//! bytes ever diverge from that request, the connection is an ordinary game
//! session and every byte read so far belongs to the frame stream.

use vstd::prelude::*;

verus! {

/// The literal policy file request: `<policy-file-request/>` and a NUL.
pub open spec fn policy_request() -> Seq<u8> {
    seq![
        0x3cu8, 0x70u8, 0x6fu8, 0x6cu8, 0x69u8, 0x63u8, 0x79u8, 0x2du8, 0x66u8, 0x69u8, 0x6cu8,
        0x65u8, 0x2du8, 0x72u8, 0x65u8, 0x71u8, 0x75u8, 0x65u8, 0x73u8, 0x74u8, 0x2fu8, 0x3eu8,
        0x00u8,
    ]
}

/// The policy file request as bytes.
pub fn policy_request_bytes() -> (r: Vec<u8>)
    ensures
        r@ == policy_request(),
{
    let mut r: Vec<u8> = Vec::new();
    r.push(0x3c);
    r.push(0x70);
    r.push(0x6f);
    r.push(0x6c);
    r.push(0x69);
    r.push(0x63);
    r.push(0x79);
    r.push(0x2d);
    r.push(0x66);
    r.push(0x69);
    r.push(0x6c);
    r.push(0x65);
    r.push(0x2d);
    r.push(0x72);
    r.push(0x65);
    r.push(0x71);
    r.push(0x75);
    r.push(0x65);
    r.push(0x73);
    r.push(0x74);
    r.push(0x2f);
    r.push(0x3e);
    r.push(0x00);
    proof {
        assert(r@ =~= policy_request());
    }
    r
}

/// What the listener should do with the bytes peeked so far.
#[derive(Debug, PartialEq, Eq, Structural, Clone, Copy)]
pub enum PolicyDecision {
    /// The full policy file request arrived: send the policy file and
    /// close; this is not a game session.
    PolicyRequest,
    /// The bytes so far are a proper prefix of the request: peek further.
    NeedMore,
    /// The bytes diverge from the request: hand the stream, unconsumed, to
    /// the frame codec.
    NotPolicy,
}

/// The decision for the bytes peeked so far.
pub open spec fn classify_spec(bytes: Seq<u8>) -> PolicyDecision {
    if bytes == policy_request() {
        PolicyDecision::PolicyRequest
    } else if bytes.is_prefix_of(policy_request()) {
        PolicyDecision::NeedMore
    } else {
        PolicyDecision::NotPolicy
    }
}

/// Classify the bytes peeked from a fresh connection: the full request,
/// a prefix of it that needs more bytes, or a divergence meaning this is an
/// ordinary game session.
pub fn classify_preamble(bytes: &Vec<u8>) -> (d: PolicyDecision)
    ensures
        d == classify_spec(bytes@),
{
    let req = policy_request_bytes();
    let n = bytes.len();
    if n > req.len() {
        proof {
            assert(!(bytes@ =~= policy_request()));
            assert(!bytes@.is_prefix_of(policy_request()));
        }
        return PolicyDecision::NotPolicy;
    }
    let mut i: usize = 0;
    while i < n
        invariant
            i <= n,
            n == bytes@.len(),
            n <= req@.len(),
            req@ == policy_request(),
            forall|j: int| 0 <= j < i ==> bytes@[j] == policy_request()[j],
        decreases n - i,
    {
        if bytes[i] != req[i] {
            proof {
                assert(!(bytes@ =~= policy_request()));
                assert(!bytes@.is_prefix_of(policy_request()));
            }
            return PolicyDecision::NotPolicy;
        }
        i = i + 1;
    }
    if n == req.len() {
        proof {
            assert(bytes@ =~= policy_request());
        }
        PolicyDecision::PolicyRequest
    } else {
        proof {
            assert(bytes@.is_prefix_of(policy_request()));
            assert(!(bytes@ =~= policy_request()));
        }
        PolicyDecision::NeedMore
    }
}

/// The fixed cleartext policy document sent in answer to a policy file
/// request: it permits all domains on all ports.
pub fn policy_file() -> (s: &'static str)
    ensures
        s@ == policy_file_text(),
{
    "\n<?xml version=\"1.0\"?>\n<!DOCTYPE cross-domain-policy SYSTEM \"/xml/dtds/cross-domain-policy.dtd\">\n<cross-domain-policy>\n    <site-control permitted-cross-domain-policies=\"all\"/>\n    <allow-access-from domain=\"*\" to-ports=\"*\"/>\n</cross-domain-policy>\n"
}

/// The text of the policy document.
pub open spec fn policy_file_text() -> Seq<char> {
    "\n<?xml version=\"1.0\"?>\n<!DOCTYPE cross-domain-policy SYSTEM \"/xml/dtds/cross-domain-policy.dtd\">\n<cross-domain-policy>\n    <site-control permitted-cross-domain-policies=\"all\"/>\n    <allow-access-from domain=\"*\" to-ports=\"*\"/>\n</cross-domain-policy>\n"@
}

} // verus!
