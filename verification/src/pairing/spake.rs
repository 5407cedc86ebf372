//! The key exchange: SPAKE2 in symmetric mode, and a round of key confirmation.
//!
//! Both peers start with the secret words of the code as the password and the same fixed
//! identity. Each sends its 33-byte message, derives the 32-byte session key from the other's,
//! and then sends a 16-byte token derived from the key and checks the other's: a peer with other
//! words is found out before any data flows. The nameplate is no part of the exchange.
use hkdf::Hkdf;
use rand::rngs::OsRng;
use rand::TryRngCore;
use rand_chacha::rand_core::SeedableRng;
use rand_chacha::ChaCha20Rng;
use sha2::Sha256;
use spake2::{Ed25519Group, Identity, Password, Spake2};
use vstd::prelude::*;

use crate::text::{decimal, decimal_string, quote, quoted};

verus! {

broadcast use vstd::string::group_string_axioms;

/// Identity shared by all peers (`my-croc/v1`): it binds the derived key to this application.
pub const APP_IDENTIFIER: [u8; 10] = [
    0x6d, 0x79, 0x2d, 0x63, 0x72, 0x6f, 0x63, 0x2f, 0x76, 0x31,
];

/// What the confirmation token is derived for (`my-croc/confirm`).
pub const CONFIRM_INFO: [u8; 15] = [
    0x6d, 0x79, 0x2d, 0x63, 0x72, 0x6f, 0x63, 0x2f, 0x63, 0x6f, 0x6e, 0x66, 0x69, 0x72, 0x6d,
];

/// Length of a SPAKE2 message: one byte for the side and a 32-byte point.
pub const SPAKE_MSG_LEN: usize = 33;

/// Length of the key-confirmation token.
pub const CONFIRM_TOKEN_LEN: usize = 16;

/// Length of the session key.
pub const SESSION_KEY_LEN: usize = 32;

/// The side byte of a symmetric message, `S`.
pub const SYMMETRIC_SIDE: u8 = 0x53;

/// Why the exchange refuses a peer's message.
#[derive(Debug, Clone, Copy, PartialEq, Eq, Structural)]
pub enum ProtocolError {
    /// The message is not from the side that this exchange talks to.
    BadSide,
    /// The message holds no point of the curve.
    CorruptMessage,
    /// The message has the wrong length.
    WrongLength,
}

/// Errors from the pairing exchange.
#[derive(Debug, Clone, PartialEq, Eq)]
pub enum SpakeError {
    /// The exchange refused the peer's message.
    Protocol(ProtocolError),
    /// The derived key had an unexpected length.
    KeyLengthMismatch { expected: usize, actual: usize },
    /// The peer's token is not ours: the two sides do not share the same words.
    ConfirmationMismatch,
    /// A handshake field had the wrong length.
    BadHandshakeLength { kind: &'static str, expected: usize, actual: usize },
    /// A handshake message of the wrong round was supplied.
    WrongHandshakeKind,
    /// A handshake field was not valid hex.
    InvalidHex(String),
}

/// The words for a refused message.
pub open spec fn protocol_error_text(error: ProtocolError) -> Seq<char> {
    match error {
        ProtocolError::BadSide => "bad side"@,
        ProtocolError::CorruptMessage => "corrupt message"@,
        ProtocolError::WrongLength => "invalid length"@,
    }
}

/// The sentence that reports an error of the exchange.
pub open spec fn spake_error_text(error: SpakeError) -> Seq<char> {
    match error {
        SpakeError::Protocol(e) => "spake2 protocol error: "@ + protocol_error_text(e),
        SpakeError::KeyLengthMismatch { expected, actual } => "derived key length "@ + decimal(
            actual as nat,
        ) + ", expected "@ + decimal(expected as nat),
        SpakeError::ConfirmationMismatch => "key-confirmation token mismatch"@,
        SpakeError::BadHandshakeLength { kind, expected, actual } => kind@ + " message length "@
            + decimal(actual as nat) + ", expected "@ + decimal(expected as nat),
        SpakeError::WrongHandshakeKind =>
            "handshake message of the wrong round (expected spake, got confirm or vice versa)"@,
        SpakeError::InvalidHex(value) => "invalid hex string: "@ + quoted(value@),
    }
}

impl SpakeError {
    /// The sentence that reports the error.
    pub fn to_string(&self) -> (text: String)
        ensures
            text@ == spake_error_text(*self),
    {
        let mut text: String;
        match self {
            SpakeError::Protocol(error) => {
                text = "spake2 protocol error: ".to_owned();
                match error {
                    ProtocolError::BadSide => text.append("bad side"),
                    ProtocolError::CorruptMessage => text.append("corrupt message"),
                    ProtocolError::WrongLength => text.append("invalid length"),
                }
            },
            SpakeError::KeyLengthMismatch { expected, actual } => {
                text = "derived key length ".to_owned();
                text.append(decimal_string(*actual as u64).as_str());
                text.append(", expected ");
                text.append(decimal_string(*expected as u64).as_str());
            },
            SpakeError::ConfirmationMismatch => {
                text = "key-confirmation token mismatch".to_owned();
            },
            SpakeError::BadHandshakeLength { kind, expected, actual } => {
                text = String::new();
                text.append(kind);
                text.append(" message length ");
                text.append(decimal_string(*actual as u64).as_str());
                text.append(", expected ");
                text.append(decimal_string(*expected as u64).as_str());
            },
            SpakeError::WrongHandshakeKind => {
                text =
                "handshake message of the wrong round (expected spake, got confirm or vice versa)".to_owned();
            },
            SpakeError::InvalidHex(value) => {
                text = "invalid hex string: ".to_owned();
                text.append(quote(value.as_str()).as_str());
            },
        }
        text
    }
}

/// The message of an exchange with the given password, identity and seed.
pub uninterp spec fn spake_message(
    password: Seq<u8>,
    identity: Seq<u8>,
    seed: Seq<u8>,
) -> Seq<u8>;

/// The key that an exchange with the given password, identity and seed derives from the peer's
/// message; none where that message holds no point of the curve.
pub uninterp spec fn spake_key(
    password: Seq<u8>,
    identity: Seq<u8>,
    seed: Seq<u8>,
    inbound: Seq<u8>,
) -> Option<Seq<u8>>;

/// `OsRng` of the `rand` crate: 32 bytes from the system, left to chance.
#[verifier::external_body]
fn draw_seed() -> (seed: [u8; 32]) {
    let mut seed = [0u8; 32];
    OsRng.try_fill_bytes(&mut seed).expect("the system has random bytes");
    seed
}

/// `Spake2::start_symmetric_with_rng`, with the secret scalar drawn from a ChaCha20 stream that
/// the seed determines: the message is the side byte `S` and a 32-byte point.
#[verifier::external_body]
fn start_symmetric(password: &[u8], identity: &[u8], seed: &[u8; 32]) -> (message: Vec<u8>)
    ensures
        message@ == spake_message(password@, identity@, seed@),
        message@.len() == SPAKE_MSG_LEN,
        message@[0] == SYMMETRIC_SIDE,
{
    let (_, message) = Spake2::<Ed25519Group>::start_symmetric_with_rng(
        &Password::new(password),
        &Identity::new(identity),
        ChaCha20Rng::from_seed(*seed),
    );
    message
}

/// `Spake2::finish` on the exchange that the seed determines: it refuses a message of another
/// length, then one without the side byte `S`, then one that holds no point; otherwise it derives
/// a 32-byte key. Two exchanges with the same password and identity that are given each other's
/// messages derive the same key.
#[verifier::external_body]
fn finish_symmetric(password: &[u8], identity: &[u8], seed: &[u8; 32], inbound: &[u8]) -> (out:
    Result<Vec<u8>, ProtocolError>)
    ensures
        inbound@.len() != SPAKE_MSG_LEN ==> out matches Err(ProtocolError::WrongLength),
        inbound@.len() == SPAKE_MSG_LEN && inbound@[0] != SYMMETRIC_SIDE ==> out matches Err(
            ProtocolError::BadSide,
        ),
        inbound@.len() == SPAKE_MSG_LEN && inbound@[0] == SYMMETRIC_SIDE ==> match spake_key(
            password@,
            identity@,
            seed@,
            inbound@,
        ) {
            Some(key) => out is Ok && out->Ok_0@ == key && key.len() == SESSION_KEY_LEN,
            None => out matches Err(ProtocolError::CorruptMessage),
        },
        forall|peer: Seq<u8>|
            peer.len() == 32 && inbound@ == #[trigger] spake_message(password@, identity@, peer)
                ==> out is Ok && spake_key(
                password@,
                identity@,
                peer,
                spake_message(password@, identity@, seed@),
            ) == Some(out->Ok_0@),
{
    let (exchange, _) = Spake2::<Ed25519Group>::start_symmetric_with_rng(
        &Password::new(password),
        &Identity::new(identity),
        ChaCha20Rng::from_seed(*seed),
    );
    match exchange.finish(inbound) {
        Ok(key) => Ok(key),
        Err(spake2::Error::BadSide) => Err(ProtocolError::BadSide),
        Err(spake2::Error::CorruptMessage) => Err(ProtocolError::CorruptMessage),
        Err(spake2::Error::WrongLength) => Err(ProtocolError::WrongLength),
    }
}

/// The first 16 bytes that HKDF-SHA256 derives from `key` without salt for `info`.
pub uninterp spec fn hkdf_sha256(key: Seq<u8>, info: Seq<u8>) -> Seq<u8>;

/// `Hkdf::<Sha256>::new` without salt, then `expand` to 16 bytes, which is far below the length
/// at which it fails.
#[verifier::external_body]
fn hkdf_expand(key: &[u8; 32], info: &[u8]) -> (token: [u8; 16])
    ensures
        token@ == hkdf_sha256(key@, info@),
{
    let mut token = [0u8; 16];
    Hkdf::<Sha256>::new(None, key).expand(info, &mut token).expect("16 bytes can be expanded");
    token
}

/// The confirmation token of a session key.
pub open spec fn token_of(key: Seq<u8>) -> Seq<u8> {
    hkdf_sha256(key, CONFIRM_INFO@)
}

/// A single-use symmetric exchange. It is kept as what determines it: the words, and the seed of
/// its secret scalar.
pub struct SpakeSession {
    words: Vec<u8>,
    seed: [u8; 32],
}

impl SpakeSession {
    /// The password of the exchange.
    pub closed spec fn words(self) -> Seq<u8> {
        self.words@
    }

    /// The seed of the secret scalar.
    pub closed spec fn seed(self) -> Seq<u8> {
        self.seed@
    }

    /// The message that the exchange sends.
    pub open spec fn message(self) -> Seq<u8> {
        spake_message(self.words(), APP_IDENTIFIER@, self.seed())
    }

    /// What the exchange makes of an inbound message.
    pub open spec fn derive_key(self, inbound: Seq<u8>) -> Result<Seq<u8>, ProtocolError> {
        if inbound.len() != SPAKE_MSG_LEN {
            Err(ProtocolError::WrongLength)
        } else if inbound[0] != SYMMETRIC_SIDE {
            Err(ProtocolError::BadSide)
        } else {
            match spake_key(self.words(), APP_IDENTIFIER@, self.seed(), inbound) {
                Some(key) => Ok(key),
                None => Err(ProtocolError::CorruptMessage),
            }
        }
    }

    /// What `finish` promises of its result: it is what the exchange makes of the message, and it
    /// is the key of a peer with the same words whose message that is.
    pub open spec fn finished(self, inbound: Seq<u8>, key: Result<SessionKey, SpakeError>) -> bool {
        &&& match key {
            Ok(key) => self.derive_key(inbound) == Ok::<_, ProtocolError>(key@),
            Err(SpakeError::Protocol(error)) => self.derive_key(inbound) == Err::<Seq<u8>, _>(
                error,
            ),
            Err(_) => false,
        }
        &&& forall|peer: Seq<u8>|
            peer.len() == 32 && inbound == #[trigger] spake_message(
                self.words(),
                APP_IDENTIFIER@,
                peer,
            ) ==> key is Ok && spake_key(self.words(), APP_IDENTIFIER@, peer, self.message())
                == Some(key->Ok_0@)
    }

    /// Starts an exchange and produces its outbound message. `words` is the secret part of the
    /// pairing code alone.
    pub fn start(words: &[u8]) -> (out: (Self, Vec<u8>))
        ensures
            out.0.words() == words@,
            out.0.seed().len() == 32,
            out.1@ == out.0.message(),
            out.1@.len() == SPAKE_MSG_LEN,
            out.1@[0] == SYMMETRIC_SIDE,
    {
        Self::start_seeded(words, draw_seed())
    }

    /// Starts the exchange that a seed determines.
    pub fn start_seeded(words: &[u8], seed: [u8; 32]) -> (out: (Self, Vec<u8>))
        ensures
            out.0.words() == words@,
            out.0.seed() == seed@,
            out.1@ == out.0.message(),
            out.1@.len() == SPAKE_MSG_LEN,
            out.1@[0] == SYMMETRIC_SIDE,
    {
        let identity: [u8; 10] = APP_IDENTIFIER;
        let message = start_symmetric(words, identity.as_slice(), &seed);
        let mut secret: Vec<u8> = Vec::new();
        secret.extend_from_slice(words);
        assert(secret@ =~= words@);
        (SpakeSession { words: secret, seed }, message)
    }

    /// Consumes the peer's message and derives the session key.
    ///
    /// A message from a peer with other words still completes, with another key: only the
    /// confirmation round finds that out.
    pub fn finish(self, inbound: &[u8]) -> (key: Result<SessionKey, SpakeError>)
        ensures
            self.finished(inbound@, key),
    {
        let identity: [u8; 10] = APP_IDENTIFIER;
        match finish_symmetric(self.words.as_slice(), identity.as_slice(), &self.seed, inbound) {
            Ok(key) => SessionKey::from_raw(key),
            Err(error) => Err(SpakeError::Protocol(error)),
        }
    }
}

/// The shared 32-byte session key.
#[derive(Clone, PartialEq, Eq)]
pub struct SessionKey([u8; 32]);

impl View for SessionKey {
    type V = Seq<u8>;

    closed spec fn view(&self) -> Seq<u8> {
        self.0@
    }
}

impl SessionKey {
    /// A key of exactly 32 bytes.
    fn from_raw(key: Vec<u8>) -> (out: Result<Self, SpakeError>)
        ensures
            match out {
                Ok(out) => key@.len() == SESSION_KEY_LEN && out@ == key@,
                Err(error) => key@.len() != SESSION_KEY_LEN && error == (
                SpakeError::KeyLengthMismatch {
                    expected: SESSION_KEY_LEN,
                    actual: key@.len() as usize,
                }),
            },
    {
        if key.len() != SESSION_KEY_LEN {
            return Err(
                SpakeError::KeyLengthMismatch { expected: SESSION_KEY_LEN, actual: key.len() },
            );
        }
        let mut bytes: [u8; 32] = [0u8;32];
        let mut i: usize = 0;
        while i < 32
            invariant
                i <= 32,
                key@.len() == 32,
                forall|j: int| 0 <= j < i ==> bytes@[j] == key@[j],
            decreases 32 - i,
        {
            bytes[i] = key[i];
            i += 1;
        }
        assert(bytes@ =~= key@);
        Ok(SessionKey(bytes))
    }

    /// The raw bytes of the key.
    pub fn as_bytes(&self) -> (bytes: &[u8; 32])
        ensures
            bytes@ == self@,
    {
        &self.0
    }

    /// The 16-byte token that proves possession of the key.
    pub fn confirm_token(&self) -> (token: [u8; 16])
        ensures
            token@ == token_of(self@),
    {
        let info: [u8; 15] = CONFIRM_INFO;
        hkdf_expand(&self.0, info.as_slice())
    }

    /// Checks the peer's token, in time that does not depend on where it differs.
    pub fn verify_confirm(&self, token: &[u8]) -> (outcome: Result<(), SpakeError>)
        ensures
            match outcome {
                Ok(()) => token@ == token_of(self@),
                Err(error) => token@ != token_of(self@) && error
                    == SpakeError::ConfirmationMismatch,
            },
    {
        let own: [u8; 16] = self.confirm_token();
        if constant_time_eq(own.as_slice(), token) {
            Ok(())
        } else {
            Err(SpakeError::ConfirmationMismatch)
        }
    }

    /// What may be printed of a key: nothing of its material.
    pub fn redacted(&self) -> (text: &'static str)
        ensures
            text@ == "SessionKey([REDACTED])"@,
    {
        "SessionKey([REDACTED])"
    }
}

/// Equality of two secrets without an early exit at the first difference.
fn constant_time_eq(a: &[u8], b: &[u8]) -> (same: bool)
    ensures
        same == (a@ == b@),
{
    if a.len() != b.len() {
        return false;
    }
    let mut diff: u8 = 0;
    let mut i: usize = 0;
    while i < a.len()
        invariant
            i <= a@.len() == b@.len(),
            diff == 0 <==> a@.take(i as int) =~= b@.take(i as int),
        decreases a@.len() - i,
    {
        let x: u8 = a[i];
        let y: u8 = b[i];
        assert((diff | (x ^ y)) == 0 <==> (diff == 0 && x == y)) by (bit_vector);
        assert(a@.take(i + 1) =~= a@.take(i as int).push(x));
        assert(b@.take(i + 1) =~= b@.take(i as int).push(y));
        proof {
            if a@.take(i + 1) =~= b@.take(i + 1) {
                assert(a@.take(i + 1).drop_last() =~= a@.take(i as int));
                assert(b@.take(i + 1).drop_last() =~= b@.take(i as int));
                assert(a@.take(i + 1).last() == x && b@.take(i + 1).last() == y);
            }
        }
        diff = diff | (x ^ y);
        i += 1;
    }
    assert(a@.take(i as int) =~= a@);
    assert(b@.take(i as int) =~= b@);
    diff == 0
}

/// Two exchanges that were started with the same words and are given each other's messages both
/// complete, derive the same key, and each holds the token that the other expects.
pub proof fn same_words_derive_the_same_key(
    a: SpakeSession,
    b: SpakeSession,
    key_a: Result<SessionKey, SpakeError>,
    key_b: Result<SessionKey, SpakeError>,
)
    requires
        a.words() == b.words(),
        a.seed().len() == 32,
        b.seed().len() == 32,
        a.finished(b.message(), key_a),
        b.finished(a.message(), key_b),
    ensures
        key_a is Ok && key_b is Ok,
        key_a->Ok_0@ == key_b->Ok_0@,
        token_of(key_a->Ok_0@) == token_of(key_b->Ok_0@),
{
}

} // verus!
