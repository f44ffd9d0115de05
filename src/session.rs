//! The two phases of a session on the decoder's output: the handshake, which
//! collects the peer's public key, then the decryptor, which turns the rest
//! of the output into plaintext until a zero byte or the end of the stream.
use vstd::prelude::*;
use crate::keys::{EphemeralKeyPair, shared_secret_of};
use crate::relay::RelayOutcome;
use crate::keystream::{
    Cipher, KEYSTREAM_LEN, apply_keystream, chacha20_keystream, new_cipher, remaining_keystream,
    xor_with,
};

verus! {

/// Length of the peer's public key at the head of the decoder's output.
pub const PEER_KEY_LEN: usize = 32;

/// Size of the chunks read from the decoder's output while streaming.
pub const STREAM_CHUNK: usize = 128;

/// The fixed nonce of the session's cipher: twelve bytes `0x24`.
pub open spec fn session_nonce() -> Seq<u8> {
    Seq::new(12, |i: int| 0x24u8)
}

/// The failures of a session.
#[derive(PartialEq, Eq, Structural, Clone, Copy, Debug)]
pub enum SessionError {
    /// The decoder could not be started.
    ProcessSpawn,
    /// The remote peer could not be reached.
    Connection,
    /// The handshake frame could not be sent.
    HandshakeWrite,
    /// The decoder's output ended before the peer's key was complete.
    ShortRead,
    /// The decoder exited with a failure status.
    DecoderFailure,
    /// Reading the decoder's output failed.
    StreamIo,
}

/// Why the decryptor stopped.
#[derive(PartialEq, Eq, Structural, Clone, Copy, Debug)]
pub enum StreamEnd {
    /// The decoder's output reached its end.
    UpstreamClosed,
    /// A decrypted chunk held a zero byte.
    TerminatorSeen,
    /// Reading the decoder's output failed.
    ReadFailed,
}

/// The handshake phase: the local key pair and the peer key bytes so far.
pub struct Handshake {
    pair: EphemeralKeyPair,
    received: Vec<u8>,
}

impl Handshake {
    /// The local secret scalar.
    pub closed spec fn secret(&self) -> Seq<u8> {
        self.pair.secret_bytes()
    }

    /// The peer key bytes received so far.
    pub closed spec fn received(&self) -> Seq<u8> {
        self.received@
    }

    /// No more than a key's worth of bytes has been taken.
    pub open spec fn wf(&self) -> bool {
        self.received().len() <= PEER_KEY_LEN
    }

    /// Starts the handshake with the local key pair, which it owns from here.
    pub fn new(pair: EphemeralKeyPair) -> (r: Handshake)
        ensures
            r.wf(),
            r.secret() == pair.secret_bytes(),
            r.received() == Seq::<u8>::empty(),
    {
        Handshake { pair, received: Vec::new() }
    }

    /// How many bytes of the peer's key are still missing.
    pub fn bytes_needed(&self) -> (r: usize)
        requires
            self.wf(),
        ensures
            r == PEER_KEY_LEN - self.received().len(),
    {
        PEER_KEY_LEN - self.received.len()
    }

    /// Takes bytes read from the decoder's output as the next bytes of the
    /// peer's key.
    pub fn feed(&mut self, data: &[u8])
        requires
            old(self).wf(),
            data@.len() <= PEER_KEY_LEN - old(self).received().len(),
        ensures
            final(self).wf(),
            final(self).secret() == old(self).secret(),
            final(self).received() == old(self).received() + data@,
    {
        let mut i: usize = 0;
        while i < data.len()
            invariant
                0 <= i <= data@.len(),
                self.pair.secret_bytes() == old(self).secret(),
                self.received@ == old(self).received() + data@.take(i as int),
            decreases data@.len() - i,
        {
            self.received.push(data[i]);
            assert(data@.take(i as int + 1) == data@.take(i as int).push(data@[i as int]));
            i = i + 1;
        }
        assert(data@.take(data@.len() as int) == data@);
    }

    /// Ends the handshake: with the whole peer key, derives the shared secret
    /// and hands over to the decryptor; with fewer bytes (the output ended
    /// early) fails, and no decryption can follow.
    pub fn finish(self) -> (r: Result<Decryptor, SessionError>)
        requires
            self.wf(),
        ensures
            (self.received().len() < PEER_KEY_LEN) <==> r is Err,
            match r {
                Ok(d) => {
                    &&& d.wf()
                    &&& d.key() == shared_secret_of(self.secret(), self.received())
                    &&& d.ciphertext() == Seq::<u8>::empty()
                    &&& d.plaintext() == Seq::<u8>::empty()
                    &&& d.end() is None
                },
                Err(e) => e == SessionError::ShortRead,
            },
    {
        if self.received.len() < PEER_KEY_LEN {
            return Err(SessionError::ShortRead);
        }
        let mut peer: [u8; 32] = [0u8; 32];
        let mut i: usize = 0;
        while i < 32
            invariant
                0 <= i <= 32,
                self.received@.len() == 32,
                forall|j: int| 0 <= j < i ==> peer@[j] == self.received@[j],
            decreases 32 - i,
        {
            peer[i] = self.received[i];
            i = i + 1;
        }
        assert(peer@ == self.received@);
        let shared = self.pair.diffie_hellman(&peer);
        Ok(Decryptor::new(&shared))
    }
}

/// The streaming phase: the cipher, the ciphertext taken so far and the
/// plaintext made of it.
pub struct Decryptor {
    cipher: Cipher,
    key: Ghost<Seq<u8>>,
    ciphertext: Ghost<Seq<u8>>,
    consumed: u64,
    plaintext: Vec<u8>,
    end: Option<StreamEnd>,
}

impl Decryptor {
    /// The shared secret that keys the cipher.
    pub closed spec fn key(&self) -> Seq<u8> {
        self.key@
    }

    /// The ciphertext taken so far, all chunks in order.
    pub closed spec fn ciphertext(&self) -> Seq<u8> {
        self.ciphertext@
    }

    /// The plaintext produced so far.
    pub closed spec fn plaintext(&self) -> Seq<u8> {
        self.plaintext@
    }

    /// Why streaming stopped, once it has.
    pub closed spec fn end(&self) -> Option<StreamEnd> {
        self.end
    }

    /// The whole keystream of the session.
    pub open spec fn keystream(&self) -> Seq<u8> {
        chacha20_keystream(self.key(), session_nonce())
    }

    /// The cipher stands just past the keystream bytes used so far, and the
    /// plaintext is the ciphertext XOR-ed with the keystream from its start.
    pub closed spec fn wf(&self) -> bool {
        &&& self.keystream().len() == KEYSTREAM_LEN
        &&& self.ciphertext@.len() == self.consumed
        &&& self.consumed <= KEYSTREAM_LEN
        &&& remaining_keystream(self.cipher) == self.keystream().skip(self.consumed as int)
        &&& self.plaintext@ == xor_with(self.ciphertext@, self.keystream())
    }

    /// The plaintext is the ciphertext XOR-ed with the keystream, however
    /// the ciphertext came in chunks.
    pub proof fn lemma_plaintext(&self)
        requires
            self.wf(),
        ensures
            self.plaintext() == xor_with(self.ciphertext(), self.keystream()),
            self.ciphertext().len() <= KEYSTREAM_LEN,
    {
    }

    /// A decryptor keyed by `shared` with the session nonce, at the start of
    /// its keystream.
    pub fn new(shared: &[u8; 32]) -> (r: Decryptor)
        ensures
            r.wf(),
            r.key() == shared@,
            r.ciphertext() == Seq::<u8>::empty(),
            r.plaintext() == Seq::<u8>::empty(),
            r.end() is None,
    {
        let nonce: [u8; 12] = [0x24u8, 0x24, 0x24, 0x24, 0x24, 0x24, 0x24, 0x24, 0x24, 0x24, 0x24, 0x24];
        assert(nonce@ == session_nonce());
        let cipher = new_cipher(shared, &nonce);
        let r = Decryptor {
            cipher,
            key: Ghost(shared@),
            ciphertext: Ghost(Seq::empty()),
            consumed: 0,
            plaintext: Vec::new(),
            end: None,
        };
        assert(r.keystream().skip(0) == r.keystream());
        assert(r.plaintext@ == xor_with(Seq::empty(), r.keystream()));
        r
    }

    /// How many ciphertext bytes have been taken.
    pub fn consumed(&self) -> (r: u64)
        requires
            self.wf(),
        ensures
            r == self.ciphertext().len(),
    {
        self.consumed
    }

    /// Whether streaming has stopped.
    pub fn is_finished(&self) -> (r: bool)
        ensures
            r == self.end() is Some,
    {
        self.end.is_some()
    }

    /// Why streaming stopped, once it has.
    pub fn end_reason(&self) -> (r: Option<StreamEnd>)
        ensures
            r == self.end(),
    {
        self.end
    }

    /// The plaintext produced so far.
    pub fn plaintext_bytes(&self) -> (r: &Vec<u8>)
        ensures
            r@ == self.plaintext(),
    {
        &self.plaintext
    }

    /// Takes the result of one read of the decoder's output. An empty chunk
    /// is the end of the stream. Otherwise the chunk is decrypted with the
    /// next keystream bytes, exactly as many as it holds, and the plaintext
    /// chunk is returned and kept; if it holds a zero byte, streaming stops.
    pub fn on_chunk(&mut self, chunk: &[u8]) -> (out: Vec<u8>)
        requires
            old(self).wf(),
            old(self).end() is None,
            old(self).ciphertext().len() + chunk@.len() <= KEYSTREAM_LEN,
        ensures
            final(self).wf(),
            final(self).key() == old(self).key(),
            final(self).ciphertext() == old(self).ciphertext() + chunk@,
            final(self).plaintext() == old(self).plaintext() + out@,
            out@ == xor_with(chunk@, old(self).keystream().skip(old(self).ciphertext().len() as int)),
            chunk@.len() == 0 ==> final(self).end() == Some(StreamEnd::UpstreamClosed),
            chunk@.len() > 0 ==> final(self).end() == (if out@.contains(0u8) {
                Some(StreamEnd::TerminatorSeen)
            } else {
                None
            }),
    {
        if chunk.len() == 0 {
            self.end = Some(StreamEnd::UpstreamClosed);
            let out: Vec<u8> = Vec::new();
            assert(chunk@ == Seq::<u8>::empty());
            assert(self.ciphertext@ + chunk@ == self.ciphertext@);
            assert(self.plaintext@ + out@ == self.plaintext@);
            assert(out@ == xor_with(chunk@, self.keystream().skip(self.consumed as int)));
            return out;
        }
        let ghost ks = self.keystream();
        let ghost ct0 = self.ciphertext@;
        let ghost rest = remaining_keystream(self.cipher);
        let mut buf = copy_bytes(chunk);
        apply_keystream(&mut self.cipher, &mut buf);
        let mut shown = copy_bytes(buf.as_slice());
        self.plaintext.append(&mut shown);
        let zero = contains_zero(buf.as_slice());
        self.ciphertext = Ghost(ct0 + chunk@);
        self.consumed = self.consumed + chunk.len() as u64;
        if zero {
            self.end = Some(StreamEnd::TerminatorSeen);
        }
        proof {
            lemma_xor_concat(ks, ct0, chunk@);
            assert(rest.skip(chunk@.len() as int) =~= ks.skip(self.consumed as int));
        }
        buf
    }

    /// Takes a failed read of the decoder's output: streaming stops as at the
    /// end of the stream, and nothing else changes.
    pub fn on_read_error(&mut self)
        requires
            old(self).wf(),
        ensures
            final(self).wf(),
            final(self).key() == old(self).key(),
            final(self).ciphertext() == old(self).ciphertext(),
            final(self).plaintext() == old(self).plaintext(),
            final(self).end() == Some(StreamEnd::ReadFailed),
    {
        self.end = Some(StreamEnd::ReadFailed);
    }

    /// Ends streaming and hands over the plaintext.
    pub fn into_plaintext(self) -> (r: Vec<u8>)
        ensures
            r@ == self.plaintext(),
    {
        self.plaintext
    }
}

/// A copy of `s`.
fn copy_bytes(s: &[u8]) -> (r: Vec<u8>)
    ensures
        r@ == s@,
{
    let mut r: Vec<u8> = Vec::new();
    let mut i: usize = 0;
    while i < s.len()
        invariant
            0 <= i <= s@.len(),
            r@ == s@.take(i as int),
        decreases s@.len() - i,
    {
        r.push(s[i]);
        assert(s@.take(i as int + 1) == s@.take(i as int).push(s@[i as int]));
        i = i + 1;
    }
    assert(s@.take(s@.len() as int) == s@);
    r
}

/// Whether `s` holds a zero byte.
fn contains_zero(s: &[u8]) -> (r: bool)
    ensures
        r == s@.contains(0u8),
{
    let mut i: usize = 0;
    while i < s.len()
        invariant
            0 <= i <= s@.len(),
            forall|j: int| 0 <= j < i ==> s@[j] != 0u8,
        decreases s@.len() - i,
    {
        if s[i] == 0 {
            assert(s@[i as int] == 0u8);
            return true;
        }
        i = i + 1;
    }
    false
}

/// Decrypting `a` then `b` with the keystream where `a` left off gives the
/// same bytes as decrypting `a + b` in one pass.
pub proof fn lemma_xor_concat(ks: Seq<u8>, a: Seq<u8>, b: Seq<u8>)
    requires
        a.len() + b.len() <= ks.len(),
    ensures
        xor_with(a, ks) + xor_with(b, ks.skip(a.len() as int)) == xor_with(a + b, ks),
{
    assert(xor_with(a, ks) + xor_with(b, ks.skip(a.len() as int)) =~= xor_with(a + b, ks));
}

/// Chunk-by-chunk decryption: each chunk is XOR-ed with the keystream from
/// where the chunks before it left off.
pub open spec fn decrypt_chunks(ks: Seq<u8>, chunks: Seq<Seq<u8>>) -> Seq<u8>
    decreases chunks.len(),
{
    if chunks.len() == 0 {
        Seq::empty()
    } else {
        let before = chunks.drop_last();
        decrypt_chunks(ks, before) + xor_with(chunks.last(), ks.skip(before.flatten().len() as int))
    }
}

/// However the ciphertext is cut into chunks, decrypting the chunks one
/// after another gives the same plaintext as decrypting their concatenation
/// in one pass.
pub proof fn chunking_does_not_change_plaintext(ks: Seq<u8>, chunks: Seq<Seq<u8>>)
    requires
        chunks.flatten().len() <= ks.len(),
    ensures
        decrypt_chunks(ks, chunks) == xor_with(chunks.flatten(), ks),
    decreases chunks.len(),
{
    if chunks.len() > 0 {
        let before = chunks.drop_last();
        assert(before.push(chunks.last()) == chunks);
        before.lemma_flatten_push(chunks.last());
        chunking_does_not_change_plaintext(ks, before);
        lemma_xor_concat(ks, before.flatten(), chunks.last());
    }
}

/// What a session reports at its end: the plaintext delivered, why streaming
/// stopped, the session's failure if any, and the relay task's report.
pub struct SessionReport {
    pub plaintext: Vec<u8>,
    pub end: StreamEnd,
    pub error: Option<SessionError>,
    pub relay: RelayOutcome,
}

/// Closes a session once streaming has stopped, the decoder has exited and
/// the relay task has been joined. A failed decoder makes the session fail
/// with `DecoderFailure`, but the plaintext delivered before stays in the
/// report; the relay task's stop is reported and fails nothing.
pub fn conclude(decryptor: Decryptor, decoder_succeeded: bool, relay: RelayOutcome) -> (r:
    SessionReport)
    requires
        decryptor.end() is Some,
    ensures
        r.plaintext@ == decryptor.plaintext(),
        r.end == decryptor.end()->Some_0,
        r.error == (if decoder_succeeded {
            None
        } else {
            Some(SessionError::DecoderFailure)
        }),
        r.relay == relay,
{
    let end = match decryptor.end_reason() {
        Some(e) => e,
        None => StreamEnd::UpstreamClosed,
    };
    let error = if decoder_succeeded {
        None
    } else {
        Some(SessionError::DecoderFailure)
    };
    SessionReport { plaintext: decryptor.into_plaintext(), end, error, relay }
}

} // verus!
