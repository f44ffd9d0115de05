//! Ephemeral X25519 key pairs and the Diffie-Hellman shared secret.
use vstd::prelude::*;

verus! {

/// The X25519 function on a scalar and a u-coordinate, both as 32 bytes.
pub uninterp spec fn x25519_of(k: Seq<u8>, u: Seq<u8>) -> Seq<u8>;

/// Relies on `x25519_dalek::x25519`: clamps the scalar `k` and multiplies
/// the Montgomery point `u` by it; the result depends on `k` and `u` alone.
#[verifier::external_body]
fn x25519(k: [u8; 32], u: [u8; 32]) -> (r: [u8; 32])
    ensures
        r@ == x25519_of(k@, u@),
{
    x25519_dalek::x25519(k, u)
}

/// The X25519 base point's u-coordinate: 9, then 31 zero bytes.
pub open spec fn basepoint() -> Seq<u8> {
    seq![9u8] + Seq::new(31, |i: int| 0u8)
}

/// Relies on `x25519_dalek::X25519_BASEPOINT_BYTES`, the base point for
/// the byte-oriented X25519 function.
#[verifier::external_body]
fn x25519_basepoint() -> (r: [u8; 32])
    ensures
        r@ == basepoint(),
{
    x25519_dalek::X25519_BASEPOINT_BYTES
}

/// Relies on `StaticSecret::random` of x25519_dalek: 32 bytes from the
/// operating system's generator, of which nothing can be promised.
#[verifier::external_body]
fn random_scalar() -> (r: [u8; 32]) {
    x25519_dalek::StaticSecret::random().to_bytes()
}

/// The public key that belongs to a secret scalar.
pub open spec fn public_key_of(secret: Seq<u8>) -> Seq<u8> {
    x25519_of(secret, basepoint())
}

/// The shared secret of a secret scalar and a peer's public key.
pub open spec fn shared_secret_of(secret: Seq<u8>, peer: Seq<u8>) -> Seq<u8> {
    x25519_of(secret, peer)
}

/// A single-use key pair. It cannot be copied; deriving the shared secret
/// consumes it, so its secret serves one exchange only.
pub struct EphemeralKeyPair {
    secret: [u8; 32],
    public: [u8; 32],
}

impl EphemeralKeyPair {
    /// The secret scalar.
    pub closed spec fn secret_bytes(&self) -> Seq<u8> {
        self.secret@
    }

    /// The public key.
    pub closed spec fn public_bytes(&self) -> Seq<u8> {
        self.public@
    }

    /// The public key is the one of the secret scalar.
    pub open spec fn wf(&self) -> bool {
        self.public_bytes() == public_key_of(self.secret_bytes())
    }

    /// A fresh key pair from a random scalar.
    pub fn generate() -> (r: EphemeralKeyPair)
        ensures
            r.wf(),
    {
        EphemeralKeyPair::from_scalar(random_scalar())
    }

    /// The key pair of a given secret scalar.
    pub fn from_scalar(secret: [u8; 32]) -> (r: EphemeralKeyPair)
        ensures
            r.secret_bytes() == secret@,
            r.wf(),
    {
        let public = x25519(secret, x25519_basepoint());
        EphemeralKeyPair { secret, public }
    }

    /// The public key, as sent to the peer.
    pub fn public_key(&self) -> (r: [u8; 32])
        ensures
            r@ == self.public_bytes(),
    {
        self.public
    }

    /// The shared secret with the peer's public key; the key pair is used up.
    pub fn diffie_hellman(self, peer: &[u8; 32]) -> (r: [u8; 32])
        ensures
            r@ == shared_secret_of(self.secret_bytes(), peer@),
    {
        x25519(self.secret, *peer)
    }
}

/// Key derivation is a function of the secret scalar and the peer's bytes
/// alone: two key pairs with the same scalar, given the same peer key, derive
/// the same shared secret.
pub proof fn shared_secret_is_deterministic(
    a: EphemeralKeyPair,
    b: EphemeralKeyPair,
    peer_a: Seq<u8>,
    peer_b: Seq<u8>,
)
    requires
        a.secret_bytes() == b.secret_bytes(),
        peer_a == peer_b,
    ensures
        shared_secret_of(a.secret_bytes(), peer_a) == shared_secret_of(b.secret_bytes(), peer_b),
{
}

} // verus!
