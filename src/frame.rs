//! The handshake frame that carries the local public key to the peer.
use vstd::prelude::*;

verus! {

/// First byte of a handshake frame: the message-type marker.
pub const FRAME_START: u8 = 0;

/// Last byte of a handshake frame: the terminator marker.
pub const FRAME_END: u8 = 1;

/// `n` as two little-endian bytes.
pub open spec fn le_u16(n: nat) -> Seq<u8> {
    seq![(n % 256) as u8, ((n / 256) % 256) as u8]
}

/// The frame of a payload: the start marker, the payload's length as a
/// little-endian `u16`, the payload, and the end marker.
pub open spec fn frame_of(payload: Seq<u8>) -> Seq<u8> {
    seq![FRAME_START] + le_u16(payload.len()) + payload + seq![FRAME_END]
}

/// The handshake frame that announces `public_key`.
pub fn handshake_frame(public_key: &[u8; 32]) -> (r: Vec<u8>)
    ensures
        r@ == frame_of(public_key@),
        r@.len() == 36,
{
    let len: u16 = 32;
    let mut buf: Vec<u8> = Vec::new();
    buf.push(FRAME_START);
    buf.push((len % 256) as u8);
    buf.push((len / 256) as u8);
    let mut i: usize = 0;
    while i < 32
        invariant
            0 <= i <= 32,
            buf@ == seq![FRAME_START] + le_u16(32) + public_key@.take(i as int),
        decreases 32 - i,
    {
        buf.push(public_key[i]);
        assert(public_key@.take(i as int + 1) == public_key@.take(i as int).push(public_key@[i as int]));
        i = i + 1;
    }
    buf.push(FRAME_END);
    assert(public_key@.take(32) == public_key@);
    buf
}

} // verus!
