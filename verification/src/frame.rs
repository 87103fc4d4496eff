//! The wire framing of the control and activity channels: each message is a
//! 4-byte unsigned big-endian length prefix followed by that many payload
//! bytes. The byte arithmetic is verified here; moving bytes over a socket
//! is the caller's business.

use vstd::prelude::*;

verus! {

/// The four big-endian bytes of a 32-bit length.
pub open spec fn be_bytes(n: nat) -> Seq<u8> {
    seq![
        (n / 0x1000000) as u8,
        ((n / 0x10000) % 256) as u8,
        ((n / 256) % 256) as u8,
        (n % 256) as u8,
    ]
}

/// The length named by four big-endian bytes.
pub open spec fn be_value(b0: u8, b1: u8, b2: u8, b3: u8) -> nat {
    (b0 * 0x1000000 + b1 * 0x10000 + b2 * 256 + b3) as nat
}

/// Frames a payload for the wire: its length as four big-endian bytes,
/// then the payload itself. A payload too long for a 32-bit length cannot
/// be framed.
pub fn encode_frame(payload: &Vec<u8>) -> (r: Option<Vec<u8>>)
    ensures
        match r {
            Option::Some(v) => payload@.len() <= u32::MAX && v@ == be_bytes(payload@.len())
                + payload@,
            Option::None => payload@.len() > u32::MAX,
        },
{
    if payload.len() as u64 > u32::MAX as u64 {
        return Option::None;
    }
    let len = payload.len() as u32;
    let mut out: Vec<u8> = Vec::new();
    out.push((len / 0x1000000) as u8);
    out.push(((len / 0x10000) % 256) as u8);
    out.push(((len / 256) % 256) as u8);
    out.push((len % 256) as u8);
    let mut i: usize = 0;
    while i < payload.len()
        invariant
            0 <= i <= payload@.len(),
            payload@.len() <= u32::MAX,
            len == payload@.len(),
            out@ =~= be_bytes(payload@.len()) + payload@.subrange(0, i as int),
        decreases payload@.len() - i,
    {
        out.push(payload[i]);
        i = i + 1;
    }
    proof {
        assert(out@ =~= be_bytes(payload@.len()) + payload@);
    }
    Option::Some(out)
}

/// Reads a frame's length prefix: the value of its four big-endian bytes.
pub fn decode_frame_len(b0: u8, b1: u8, b2: u8, b3: u8) -> (n: u32)
    ensures
        n == be_value(b0, b1, b2, b3),
{
    (b0 as u32) * 0x1000000 + (b1 as u32) * 0x10000 + (b2 as u32) * 256 + (b3 as u32)
}

/// The framing round trip: decoding the four prefix bytes written for a
/// length gives that length back.
pub proof fn lemma_frame_roundtrip(n: nat)
    requires
        n <= u32::MAX,
    ensures
        be_value(be_bytes(n)[0], be_bytes(n)[1], be_bytes(n)[2], be_bytes(n)[3]) == n,
{
    let b0 = be_bytes(n)[0];
    let b1 = be_bytes(n)[1];
    let b2 = be_bytes(n)[2];
    let b3 = be_bytes(n)[3];
    assert(b0 == n / 0x1000000 && b1 == (n / 0x10000) % 256 && b2 == (n / 256) % 256 && b3 == n
        % 256);
    assert((n / 0x1000000) * 0x1000000 + ((n / 0x10000) % 256) * 0x10000 + ((n / 256) % 256) * 256
        + n % 256 == n) by (nonlinear_arith)
        requires
            n <= u32::MAX,
    ;
}

} // verus!
