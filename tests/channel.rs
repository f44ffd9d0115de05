use chacha20::cipher::{KeyIvInit, StreamCipher};
use stego_channel::frame::handshake_frame;
use stego_channel::keys::EphemeralKeyPair;
use stego_channel::relay::{RelayAction, RelayOutcome, RelaySession, RelayStop};
use stego_channel::session::{
    conclude, Decryptor, Handshake, SessionError, StreamEnd, PEER_KEY_LEN, STREAM_CHUNK,
};

fn hex32(s: &str) -> [u8; 32] {
    let mut out = [0u8; 32];
    for i in 0..32 {
        out[i] = u8::from_str_radix(&s[2 * i..2 * i + 2], 16).unwrap();
    }
    out
}

fn encrypt(key: &[u8; 32], plaintext: &[u8]) -> Vec<u8> {
    let nonce = [0x24u8; 12];
    let mut c = chacha20::ChaCha20::new(key.into(), &nonce.into());
    let mut buf = plaintext.to_vec();
    c.apply_keystream(&mut buf);
    buf
}

const ALICE_SECRET: &str = "77076d0a7318a57d3c16c17251b26645df4c2f87ebc0992ab177fba51db92c2a";
const ALICE_PUBLIC: &str = "8520f0098930a754748b7ddcb43ef75a0dbf3a0d26381af4eba4a98eaa9b4e6a";
const BOB_PUBLIC: &str = "de9edb7d7b7dc1b4d35b61c2ece435373f8343c85b78674dadfc7e146f882b4f";
const SHARED: &str = "4a5d9d5ba4ce2de1728e3bf480350f25e07e21c947d19e3376f09b3c1e161742";

#[test]
fn frame_layout() {
    let mut key = [0u8; 32];
    for i in 0..32 {
        key[i] = i as u8 + 100;
    }
    let f = handshake_frame(&key);
    assert_eq!(f.len(), 36);
    assert_eq!(f[0], 0);
    assert_eq!(f[1], 32);
    assert_eq!(f[2], 0);
    assert_eq!(&f[3..35], &key[..]);
    assert_eq!(f[35], 1);
}

#[test]
fn public_key_matches_known_vector() {
    let pair = EphemeralKeyPair::from_scalar(hex32(ALICE_SECRET));
    assert_eq!(pair.public_key(), hex32(ALICE_PUBLIC));
}

#[test]
fn shared_secret_matches_known_vector() {
    let pair = EphemeralKeyPair::from_scalar(hex32(ALICE_SECRET));
    assert_eq!(pair.diffie_hellman(&hex32(BOB_PUBLIC)), hex32(SHARED));
}

#[test]
fn shared_secret_is_deterministic_on_equal_inputs() {
    let scalar = [7u8; 32];
    let peer = hex32(BOB_PUBLIC);
    let a = EphemeralKeyPair::from_scalar(scalar).diffie_hellman(&peer);
    let b = EphemeralKeyPair::from_scalar(scalar).diffie_hellman(&peer);
    assert_eq!(a, b);
}

#[test]
fn generated_pairs_differ() {
    let a = EphemeralKeyPair::generate();
    let b = EphemeralKeyPair::generate();
    assert_ne!(a.public_key(), b.public_key());
}

#[test]
fn handshake_needs_whole_key() {
    let mut hs = Handshake::new(EphemeralKeyPair::from_scalar([1u8; 32]));
    assert_eq!(hs.bytes_needed(), PEER_KEY_LEN);
    hs.feed(&[5u8; 10]);
    assert_eq!(hs.bytes_needed(), 22);
    match hs.finish() {
        Err(e) => assert_eq!(e, SessionError::ShortRead),
        Ok(_) => panic!("a short key must not start decryption"),
    }
}

#[test]
fn handshake_with_no_bytes_fails() {
    let hs = Handshake::new(EphemeralKeyPair::from_scalar([1u8; 32]));
    assert!(matches!(hs.finish(), Err(SessionError::ShortRead)));
}

#[test]
fn handshake_in_pieces_derives_secret() {
    let mut hs = Handshake::new(EphemeralKeyPair::from_scalar(hex32(ALICE_SECRET)));
    let bob = hex32(BOB_PUBLIC);
    hs.feed(&bob[..5]);
    hs.feed(&bob[5..20]);
    hs.feed(&bob[20..]);
    assert_eq!(hs.bytes_needed(), 0);
    let mut d = hs.finish().ok().unwrap();
    let msg = b"secret words";
    let ct = encrypt(&hex32(SHARED), msg);
    let out = d.on_chunk(&ct);
    assert_eq!(out, msg.to_vec());
    assert!(!d.is_finished());
}

#[test]
fn decryption_changes_bytes() {
    let key = [3u8; 32];
    let mut d = Decryptor::new(&key);
    let input = vec![0xAAu8; 40];
    let out = d.on_chunk(&input);
    assert_ne!(out, input);
    assert_eq!(out, encrypt(&key, &input));
    assert_eq!(d.consumed(), 40);
}

#[test]
fn chunked_decryption_matches_one_pass() {
    let key = [9u8; 32];
    let msg: Vec<u8> = (1..=250u8).collect();
    let ct = encrypt(&key, &msg);
    let mut whole = Decryptor::new(&key);
    let one = whole.on_chunk(&ct);
    for sizes in [[1usize, 2, 3], [64, 1, 63], [7, 128, 50], [128, 128, 128]] {
        let mut d = Decryptor::new(&key);
        let mut at = 0;
        let mut i = 0;
        while at < ct.len() {
            let n = sizes[i % 3].min(ct.len() - at);
            d.on_chunk(&ct[at..at + n]);
            at += n;
            i += 1;
        }
        assert_eq!(d.plaintext_bytes(), &one);
        assert_eq!(d.plaintext_bytes(), &msg);
    }
}

#[test]
fn zero_byte_stops_after_its_chunk() {
    let key = [4u8; 32];
    let msg = b"abc\0def";
    let ct = encrypt(&key, msg);
    let mut d = Decryptor::new(&key);
    let out = d.on_chunk(&ct);
    assert_eq!(out, msg.to_vec());
    assert!(d.is_finished());
    assert_eq!(d.end_reason(), Some(StreamEnd::TerminatorSeen));
    assert_eq!(d.into_plaintext(), msg.to_vec());
}

#[test]
fn empty_read_is_end_of_stream() {
    let mut d = Decryptor::new(&[4u8; 32]);
    let out = d.on_chunk(&[]);
    assert!(out.is_empty());
    assert_eq!(d.end_reason(), Some(StreamEnd::UpstreamClosed));
}

#[test]
fn read_error_ends_stream() {
    let key = [4u8; 32];
    let mut d = Decryptor::new(&key);
    d.on_chunk(&encrypt(&key, b"hi"));
    d.on_read_error();
    assert_eq!(d.end_reason(), Some(StreamEnd::ReadFailed));
    assert_eq!(d.plaintext_bytes(), &b"hi".to_vec());
}

#[test]
fn relay_stops_quietly_on_empty_read() {
    let mut r = RelaySession::new();
    assert_eq!(r.on_read(Some(100)), RelayAction::Forward(100));
    r.on_write(100, true);
    assert_eq!(r.on_read(Some(0)), RelayAction::Stop(RelayStop::InputEof));
    assert_eq!(r.outcome(), RelayOutcome { relayed: 100, stop: RelayStop::InputEof });
}

#[test]
fn relay_stops_on_read_error() {
    let mut r = RelaySession::new();
    assert_eq!(r.on_read(None), RelayAction::Stop(RelayStop::InputReadError));
    assert_eq!(r.stopped(), Some(RelayStop::InputReadError));
    assert_eq!(r.relayed(), 0);
}

#[test]
fn relay_stops_on_write_error() {
    let mut r = RelaySession::new();
    assert_eq!(r.on_read(Some(8192)), RelayAction::Forward(8192));
    r.on_write(8192, true);
    assert_eq!(r.on_read(Some(10)), RelayAction::Forward(10));
    r.on_write(10, false);
    assert_eq!(r.outcome(), RelayOutcome { relayed: 8192, stop: RelayStop::OutputWriteError });
}

/// A decoder that echoes the key-exchange bytes makes the peer key the local
/// public key; the ciphertext after it is recovered up to the first zero.
#[test]
fn echo_decoder_end_to_end() {
    let scalar = [0x42u8; 32];
    let pair = EphemeralKeyPair::from_scalar(scalar);
    let public = pair.public_key();
    let frame = handshake_frame(&public);
    let self_secret = x25519_dalek::x25519(scalar, public);
    let msg = b"hello through the decoder\0trailing";
    let mut output: Vec<u8> = frame[3..35].to_vec();
    output.extend(encrypt(&self_secret, msg));
    output.extend(encrypt(&self_secret, b"never read"));

    let mut hs = Handshake::new(pair);
    let mut at = 0;
    while hs.bytes_needed() > 0 {
        let n = hs.bytes_needed().min(20);
        hs.feed(&output[at..at + n]);
        at += n;
    }
    let mut d = hs.finish().ok().unwrap();
    let mut reads = 0;
    while !d.is_finished() {
        let n = STREAM_CHUNK.min(output.len() - at).min(msg.len());
        d.on_chunk(&output[at..at + n]);
        at += n;
        reads += 1;
    }
    assert_eq!(reads, 1);
    assert_eq!(d.end_reason(), Some(StreamEnd::TerminatorSeen));
    assert_eq!(d.into_plaintext(), msg.to_vec());
}

#[test]
fn echo_decoder_ends_on_eof() {
    let scalar = [0x11u8; 32];
    let pair = EphemeralKeyPair::from_scalar(scalar);
    let public = pair.public_key();
    let self_secret = x25519_dalek::x25519(scalar, public);
    let msg = b"no terminator here";
    let mut hs = Handshake::new(pair);
    hs.feed(&public);
    let mut d = hs.finish().ok().unwrap();
    d.on_chunk(&encrypt(&self_secret, msg));
    assert!(!d.is_finished());
    d.on_chunk(&[]);
    assert_eq!(d.end_reason(), Some(StreamEnd::UpstreamClosed));
    assert_eq!(d.into_plaintext(), msg.to_vec());
}

#[test]
fn failed_decoder_keeps_plaintext() {
    let key = [6u8; 32];
    let msg = b"delivered\0";
    let mut d = Decryptor::new(&key);
    d.on_chunk(&encrypt(&key, msg));
    let relay = RelayOutcome { relayed: 5, stop: RelayStop::InputEof };
    let report = conclude(d, false, relay);
    assert_eq!(report.error, Some(SessionError::DecoderFailure));
    assert_eq!(report.plaintext, msg.to_vec());
    assert_eq!(report.end, StreamEnd::TerminatorSeen);
    assert_eq!(report.relay, relay);
}

#[test]
fn successful_decoder_reports_no_error() {
    let mut d = Decryptor::new(&[6u8; 32]);
    d.on_chunk(&[]);
    let relay = RelayOutcome { relayed: 0, stop: RelayStop::InputReadError };
    let report = conclude(d, true, relay);
    assert_eq!(report.error, None);
    assert!(report.plaintext.is_empty());
    assert_eq!(report.end, StreamEnd::UpstreamClosed);
}
