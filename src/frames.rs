//! Server messages of the handshake: the mechanism list, the challenges and
//! the final result.

use vstd::prelude::*;
use vstd::utf8::encode_utf8;

use crate::auth::{REJECT_REASON, SASL_DATA_MAX_LEN};
use crate::wire::{be_u32_bytes, be_u32_value, lemma_be_u32_round_trip, push_be_u32, push_bytes};

verus! {

/// The reason text of a reject frame, as bytes.
pub open spec fn reject_reason() -> Seq<u8> {
    encode_utf8(REJECT_REASON@)
}

/// Reject frame: failure word 1, then the length and bytes of the reason.
pub open spec fn reject_frame() -> Seq<u8> {
    be_u32_bytes(1) + be_u32_bytes(reject_reason().len() as u32) + reject_reason()
}

/// Accept frame: the single word 0.
pub open spec fn accept_frame() -> Seq<u8> {
    be_u32_bytes(0)
}

/// Mechanism list message: length word, then the UTF-8 bytes of the list.
pub open spec fn mech_list_frame(list: Seq<char>) -> Seq<u8> {
    be_u32_bytes(encode_utf8(list).len() as u32) + encode_utf8(list)
}

/// The continuation flag byte: 1 when the exchange is complete, else 0.
pub open spec fn flag_byte(complete: bool) -> u8 {
    if complete {
        1
    } else {
        0
    }
}

/// Server challenge message: the challenge length plus one (or 0 for no
/// challenge), the challenge bytes, and the continuation flag.
pub open spec fn challenge_frame(challenge: Seq<u8>, complete: bool) -> Seq<u8> {
    if challenge.len() == 0 {
        be_u32_bytes(0) + seq![flag_byte(complete)]
    } else {
        be_u32_bytes((challenge.len() + 1) as u32) + challenge + seq![flag_byte(complete)]
    }
}

/// The reason text is 21 bytes long, so not empty.
pub proof fn lemma_reject_reason_not_empty()
    ensures
        reject_reason().len() == 21,
{
    reveal_strlit("Authentication failed");
    assert(vstd::string::is_ascii(REJECT_REASON));
    vstd::string::is_ascii_spec_bytes(REJECT_REASON);
}

/// The server challenge message for `challenge`, with the continuation flag
/// set when the exchange is `complete`.
pub fn server_challenge_message(challenge: &[u8], complete: bool) -> (r: Vec<u8>)
    requires
        challenge@.len() <= SASL_DATA_MAX_LEN,
    ensures
        r@ == challenge_frame(challenge@, complete),
{
    let mut buf: Vec<u8> = Vec::new();
    if challenge.len() > 0 {
        push_be_u32(&mut buf, (challenge.len() + 1) as u32);
        push_bytes(&mut buf, challenge);
    } else {
        push_be_u32(&mut buf, 0);
    }
    if complete {
        buf.push(1);
    } else {
        buf.push(0);
    }
    assert(buf@ =~= challenge_frame(challenge@, complete));
    buf
}

/// Appends the reject frame to `buf`.
pub fn auth_reject(buf: &mut Vec<u8>)
    ensures
        final(buf)@ == old(buf)@ + reject_frame(),
{
    let reason = REJECT_REASON.as_bytes();
    proof {
        lemma_reject_reason_not_empty();
    }
    push_be_u32(buf, 1);
    push_be_u32(buf, reason.len() as u32);
    push_bytes(buf, reason);
    assert(buf@ =~= old(buf)@ + reject_frame());
}

/// Round trip of the server challenge message: decoding the frame written
/// for a non-empty challenge of length K gives the length field K + 1, the
/// challenge itself, and the continuation flag that was encoded.
pub proof fn lemma_challenge_round_trip(challenge: Seq<u8>, complete: bool)
    requires
        0 < challenge.len() <= SASL_DATA_MAX_LEN,
    ensures
        ({
            let f = challenge_frame(challenge, complete);
            &&& f.len() == challenge.len() + 5
            &&& be_u32_value(f) == challenge.len() + 1
            &&& f.subrange(4, 4 + challenge.len() as int) == challenge
            &&& f[4 + challenge.len() as int] == flag_byte(complete)
            &&& (f[4 + challenge.len() as int] == 1 <==> complete)
        }),
{
    let f = challenge_frame(challenge, complete);
    lemma_be_u32_round_trip((challenge.len() + 1) as u32);
    assert(f.subrange(4, 4 + challenge.len() as int) =~= challenge);
}

} // verus!
