//! The ChaCha20 keystream of a session, and decryption as XOR with it.
use vstd::prelude::*;

verus! {

/// Number of keystream bytes that one ChaCha20 key and nonce provide: the
/// 32-bit block counter leaves `u32::MAX` blocks of 64 bytes.
pub const KEYSTREAM_LEN: u64 = 274877906880;

/// The ChaCha20 keystream for a key and a nonce.
pub uninterp spec fn chacha20_keystream(key: Seq<u8>, nonce: Seq<u8>) -> Seq<u8>;

/// What is left of the keystream of a cipher instance.
pub uninterp spec fn remaining_keystream(c: Cipher) -> Seq<u8>;

/// A ChaCha20 cipher instance; its state is the keystream still to be used.
#[verifier::external_body]
pub struct Cipher {
    inner: chacha20::ChaCha20,
}

/// Relies on `KeyIvInit::new` of chacha20: a cipher at the start of the
/// keystream for this key and nonce, whose counter leaves `KEYSTREAM_LEN` bytes.
#[verifier::external_body]
pub(crate) fn new_cipher(key: &[u8; 32], nonce: &[u8; 12]) -> (c: Cipher)
    ensures
        remaining_keystream(c) == chacha20_keystream(key@, nonce@),
        remaining_keystream(c).len() == KEYSTREAM_LEN,
{
    Cipher { inner: <chacha20::ChaCha20 as chacha20::cipher::KeyIvInit>::new(key.into(), nonce.into()) }
}

/// `data` XOR-ed byte by byte with the start of `ks`.
pub open spec fn xor_with(data: Seq<u8>, ks: Seq<u8>) -> Seq<u8> {
    Seq::new(data.len(), |i: int| data[i] ^ ks[i])
}

/// Relies on `StreamCipher::apply_keystream` of chacha20: XORs the buffer with
/// the next bytes of the keystream and moves past them; it panics only where
/// the keystream ends within the buffer.
#[verifier::external_body]
pub(crate) fn apply_keystream(c: &mut Cipher, buf: &mut Vec<u8>)
    requires
        old(buf).len() <= remaining_keystream(*old(c)).len(),
    ensures
        final(buf)@ == xor_with(old(buf)@, remaining_keystream(*old(c))),
        remaining_keystream(*final(c)) == remaining_keystream(*old(c)).skip(old(buf).len() as int),
{
    <chacha20::ChaCha20 as chacha20::cipher::StreamCipher>::apply_keystream(&mut c.inner, buf)
}

} // verus!
