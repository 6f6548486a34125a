//! Canonical byte strings for request signing and response verification.
//!
//! The provider's protocol signs and verifies exact, order- and
//! whitespace-sensitive byte sequences; any deviation invalidates the
//! signature. The spec functions here are the single definition of those
//! sequences, and the executable builders are proved to produce them.

use vstd::prelude::*;

verus! {

/// The UTF-8 bytes of a character sequence; the protocol's fixed tokens are
/// stated through this over string literals.
pub open spec fn txt(s: Seq<char>) -> Seq<u8> {
    vstd::utf8::encode_utf8(s)
}

/// The byte that terminates every line of a canonical message.
pub open spec fn nl() -> Seq<u8> {
    seq![10u8]
}

/// Whether a byte sequence contains no newline byte, so that it occupies
/// exactly one line of a canonical message.
pub open spec fn line_free(s: Seq<u8>) -> bool {
    forall|i: int| 0 <= i < s.len() ==> s[i] != 10u8
}

/// The canonical message signed for an outbound request: five
/// newline-terminated lines — HTTP method, path with query, timestamp,
/// nonce, body (the body line is empty for bodyless requests).
pub open spec fn request_message(
    method: Seq<u8>,
    path: Seq<u8>,
    timestamp: Seq<u8>,
    nonce: Seq<u8>,
    body: Seq<u8>,
) -> Seq<u8> {
    method + nl() + path + nl() + timestamp + nl() + nonce + nl() + body + nl()
}

/// The canonical message verified for an inbound response or notification:
/// three newline-terminated lines — timestamp, nonce, body — with nothing
/// after the final newline.
pub open spec fn response_message(timestamp: Seq<u8>, nonce: Seq<u8>, body: Seq<u8>) -> Seq<u8> {
    timestamp + nl() + nonce + nl() + body + nl()
}

/// Builds the canonical request message.
pub fn build_request_message(
    method: &[u8],
    path: &[u8],
    timestamp: &[u8],
    nonce: &[u8],
    body: &[u8],
) -> (msg: Vec<u8>)
    ensures
        msg@ == request_message(method@, path@, timestamp@, nonce@, body@),
{
    let mut msg: Vec<u8> = Vec::new();
    msg.extend_from_slice(method);
    msg.push(10u8);
    msg.extend_from_slice(path);
    msg.push(10u8);
    msg.extend_from_slice(timestamp);
    msg.push(10u8);
    msg.extend_from_slice(nonce);
    msg.push(10u8);
    msg.extend_from_slice(body);
    msg.push(10u8);
    proof {
        assert(msg@ =~= request_message(method@, path@, timestamp@, nonce@, body@));
    }
    msg
}

/// A newline-terminated line followed by arbitrary content determines both
/// parts: the line cannot hide a newline, so the first newline of the whole
/// sequence sits exactly at the line's end.
proof fn lemma_line_splits_uniquely(a1: Seq<u8>, rest1: Seq<u8>, a2: Seq<u8>, rest2: Seq<u8>)
    requires
        line_free(a1),
        line_free(a2),
        a1 + nl() + rest1 == a2 + nl() + rest2,
    ensures
        a1 == a2,
        rest1 == rest2,
{
    let m = a1 + nl() + rest1;
    if a1.len() < a2.len() {
        assert(m[a1.len() as int] == 10u8);
        assert((a2 + nl() + rest2)[a1.len() as int] == a2[a1.len() as int]);
        assert(false);
    }
    if a2.len() < a1.len() {
        assert(m[a2.len() as int] == a1[a2.len() as int]);
        assert((a2 + nl() + rest2)[a2.len() as int] == 10u8);
        assert(false);
    }
    assert(a1 =~= a2) by {
        assert(forall|i: int| 0 <= i < a1.len() ==> m[i] == a1[i] && m[i] == a2[i]);
    }
    assert(m.len() == a1.len() + 1 + rest1.len());
    assert((a2 + nl() + rest2).len() == a2.len() + 1 + rest2.len());
    assert(rest1.len() == rest2.len());
    assert forall|i: int| 0 <= i < rest1.len() implies rest1[i] == rest2[i] by {
        assert(m[a1.len() + 1 + i] == rest1[i]);
        assert((a2 + nl() + rest2)[a2.len() + 1 + i] == rest2[i]);
    }
    assert(rest1 =~= rest2);
}

/// Tamper evidence of the canonical encoding: two canonical response
/// messages over line-free timestamps and nonces are equal only when the
/// timestamp, the nonce and the body are all equal — so changing any byte of
/// any of the three changes the bytes that the signature covers.
pub proof fn lemma_response_message_injective(
    t1: Seq<u8>,
    n1: Seq<u8>,
    b1: Seq<u8>,
    t2: Seq<u8>,
    n2: Seq<u8>,
    b2: Seq<u8>,
)
    requires
        line_free(t1),
        line_free(n1),
        line_free(t2),
        line_free(n2),
        response_message(t1, n1, b1) == response_message(t2, n2, b2),
    ensures
        t1 == t2,
        n1 == n2,
        b1 == b2,
{
    assert(t1 + nl() + (n1 + nl() + b1 + nl()) =~= response_message(t1, n1, b1));
    assert(t2 + nl() + (n2 + nl() + b2 + nl()) =~= response_message(t2, n2, b2));
    lemma_line_splits_uniquely(t1, n1 + nl() + b1 + nl(), t2, n2 + nl() + b2 + nl());
    assert(n1 + nl() + (b1 + nl()) =~= n1 + nl() + b1 + nl());
    assert(n2 + nl() + (b2 + nl()) =~= n2 + nl() + b2 + nl());
    lemma_line_splits_uniquely(n1, b1 + nl(), n2, b2 + nl());
    assert(b1 =~= b2) by {
        assert(forall|i: int|
            0 <= i < b1.len() ==> (b1 + nl())[i] == b1[i] && (b2 + nl())[i] == b2[i]);
    }
}

/// Builds the canonical response message.
pub fn build_response_message(timestamp: &[u8], nonce: &[u8], body: &[u8]) -> (msg: Vec<u8>)
    ensures
        msg@ == response_message(timestamp@, nonce@, body@),
{
    let mut msg: Vec<u8> = Vec::new();
    msg.extend_from_slice(timestamp);
    msg.push(10u8);
    msg.extend_from_slice(nonce);
    msg.push(10u8);
    msg.extend_from_slice(body);
    msg.push(10u8);
    proof {
        assert(msg@ =~= response_message(timestamp@, nonce@, body@));
    }
    msg
}

} // verus!
