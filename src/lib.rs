//! A covert channel carried in the side-channel output of an external media
//! decoder: an X25519 handshake whose peer key arrives through the decoder,
//! a ChaCha20 decryptor over the decoder's output, and the relay that feeds
//! the decoder its input.
pub mod frame;
pub mod keys;
pub mod keystream;
pub mod relay;
pub mod session;
