//! The pairing exchange over the control stream, for both roles.
//!
//! The words go into the key exchange and nowhere else. Each role is a chain of values: what a
//! step needs is what the step before it returned.
use vstd::prelude::*;

use crate::pairing::handshake::{field_read, hex_reads_back, hex_text, HandshakeMessage};
use crate::pairing::spake::{
    same_words_derive_the_same_key, spake_error_text, token_of, SessionKey, SpakeError,
    SpakeSession, CONFIRM_TOKEN_LEN, SPAKE_MSG_LEN,
};
use crate::protocol::wire::{wire_error_text, WireError};
use crate::session::control::{
    session_error_text, ControlMessage, SessionError, PROTOCOL_VERSION,
};

verus! {

broadcast use vstd::string::group_string_axioms;

/// Name of the pairing control protocol (`my-croc/control`).
pub const CONTROL_ALPN: [u8; 15] = [
    0x6d, 0x79, 0x2d, 0x63, 0x72, 0x6f, 0x63, 0x2f, 0x63, 0x6f, 0x6e, 0x74, 0x72, 0x6f, 0x6c,
];

/// Upper bound for one round of the pairing exchange, in seconds.
pub const PAIR_TIMEOUT: u64 = 60;

/// Upper bound for the peer to close the connection after our last message, in seconds.
pub const ACK_TIMEOUT: u64 = 60;

/// Upper bound for an entire flow, in seconds.
pub const FLOW_TIMEOUT: u64 = 180;

/// Errors from the pairing control exchange.
#[derive(Debug, Clone, PartialEq, Eq)]
pub enum PairError {
    /// The stream failed.
    Io(String),
    /// Exchanging control messages failed.
    Control(SessionError),
    /// A handshake frame is not acceptable.
    Wire(WireError),
    /// The key exchange or its confirmation failed.
    Spake(SpakeError),
    /// Timed out waiting for something.
    Hung(&'static str),
    /// A message of the wrong kind arrived.
    Not(&'static str),
}

/// The sentence that reports an error, in two languages.
pub open spec fn pair_error_text(error: PairError) -> Seq<char> {
    match error {
        PairError::Io(reason) => "IO 错误 / io error: "@ + reason@,
        PairError::Control(e) => "控制错误 / control error: "@ + session_error_text(e),
        PairError::Wire(e) => "协议错误 / wire error: "@ + wire_error_text(e),
        PairError::Spake(SpakeError::ConfirmationMismatch) =>
            "配对码不匹配（请确认双方输入的配对码一致） / pairing code mismatch (check both sides entered the same code)"@,
        PairError::Spake(e) => "配对失败 / pairing error: "@ + spake_error_text(e),
        PairError::Hung(what) => "等待 "@ + what@ + " 超时 / timed out waiting for "@ + what@,
        PairError::Not(kind) => "预期 "@ + kind@ + "，收到其他消息 / expected "@ + kind@
            + ", got a different message"@,
    }
}

impl PairError {
    /// The sentence that reports the error, in two languages.
    pub fn to_string(&self) -> (text: String)
        ensures
            text@ == pair_error_text(*self),
    {
        match self {
            PairError::Io(reason) => "IO 错误 / io error: ".to_owned().concat(reason.as_str()),
            PairError::Control(e) => {
                "控制错误 / control error: ".to_owned().concat(e.to_string().as_str())
            },
            PairError::Wire(e) => {
                "协议错误 / wire error: ".to_owned().concat(e.to_string().as_str())
            },
            PairError::Spake(SpakeError::ConfirmationMismatch) => {
                "配对码不匹配（请确认双方输入的配对码一致） / pairing code mismatch (check both sides entered the same code)".to_owned()
            },
            PairError::Spake(e) => {
                "配对失败 / pairing error: ".to_owned().concat(e.to_string().as_str())
            },
            PairError::Hung(what) => {
                "等待 ".to_owned().concat(what).concat(" 超时 / timed out waiting for ").concat(
                    what,
                )
            },
            PairError::Not(kind) => {
                "预期 ".to_owned().concat(kind).concat("，收到其他消息 / expected ").concat(
                    kind,
                ).concat(", got a different message")
            },
        }
    }
}

/// Whether a message carries the 33 bytes `bytes` of the key exchange.
pub open spec fn carries_pake(message: HandshakeMessage, bytes: Seq<u8>) -> bool {
    message matches HandshakeMessage::Spake { msg } && field_read(
        msg@,
        "spake"@,
        SPAKE_MSG_LEN as int,
        Ok(bytes),
    )
}

/// Whether a message carries the 16 bytes `bytes` of a confirmation token.
pub open spec fn carries_token(message: HandshakeMessage, bytes: Seq<u8>) -> bool {
    message matches HandshakeMessage::Confirm { token } && field_read(
        token@,
        "confirm"@,
        CONFIRM_TOKEN_LEN as int,
        Ok(bytes),
    )
}

/// Whether reading a first-round message fails with an error.
pub open spec fn pake_refused(message: HandshakeMessage, error: SpakeError) -> bool {
    match message {
        HandshakeMessage::Spake { msg } => field_read(
            msg@,
            "spake"@,
            SPAKE_MSG_LEN as int,
            Err(error),
        ),
        HandshakeMessage::Confirm { .. } => error == SpakeError::WrongHandshakeKind,
    }
}

/// Whether reading a second-round message fails with an error.
pub open spec fn token_refused(message: HandshakeMessage, error: SpakeError) -> bool {
    match message {
        HandshakeMessage::Confirm { token } => field_read(
            token@,
            "confirm"@,
            CONFIRM_TOKEN_LEN as int,
            Err(error),
        ),
        HandshakeMessage::Spake { .. } => error == SpakeError::WrongHandshakeKind,
    }
}

/// An exchange that has sent its message.
pub struct Pairing {
    session: SpakeSession,
}

/// An exchange that has derived its key and waits for the peer's token.
pub struct Confirming {
    key: SessionKey,
}

impl Pairing {
    /// The exchange itself.
    pub closed spec fn inner(self) -> SpakeSession {
        self.session
    }

    /// What `start` promises: the exchange is one with these words, and the message carries what
    /// the exchange says first.
    pub open spec fn started(self, words: Seq<u8>, message: HandshakeMessage) -> bool {
        &&& self.inner().words() == words
        &&& self.inner().seed().len() == 32
        &&& message matches HandshakeMessage::Spake { msg }
        &&& msg@ == hex_text(self.inner().message())
        &&& carries_pake(message, self.inner().message())
    }

    /// What `derive` promises of its result.
    pub open spec fn derived(
        self,
        inbound: HandshakeMessage,
        out: Result<Confirming, PairError>,
    ) -> bool {
        match out {
            Ok(confirming) => exists|bytes: Seq<u8>| #[trigger]
                carries_pake(inbound, bytes) && self.inner().finished(bytes, Ok(confirming.key())),
            Err(PairError::Spake(error)) => pake_refused(inbound, error) || exists|bytes: Seq<u8>|
                #[trigger]
                carries_pake(inbound, bytes) && self.inner().finished(bytes, Err(error)),
            Err(_) => false,
        }
    }

    /// Starts an exchange; returns it with the message for the peer.
    pub fn start(words: &[u8]) -> (out: (Self, HandshakeMessage))
        ensures
            out.0.started(words@, out.1),
    {
        let (session, message) = SpakeSession::start(words);
        let outbound = match HandshakeMessage::spake(message.as_slice()) {
            Ok(outbound) => outbound,
            Err(_) => HandshakeMessage::Spake { msg: String::new() },
        };
        proof {
            hex_reads_back(message@);
        }
        (Pairing { session }, outbound)
    }

    /// Takes the peer's message and derives the key.
    pub fn derive(self, inbound: HandshakeMessage) -> (out: Result<Confirming, PairError>)
        ensures
            self.derived(inbound, out),
    {
        match inbound.into_pake() {
            Ok(bytes) => {
                assert(carries_pake(inbound, bytes@));
                match self.session.finish(bytes.as_slice()) {
                    Ok(key) => Ok(Confirming { key }),
                    Err(error) => Err(PairError::Spake(error)),
                }
            },
            Err(error) => Err(PairError::Spake(error)),
        }
    }
}

impl Confirming {
    /// The derived key.
    pub closed spec fn key(self) -> SessionKey {
        self.key
    }

    /// The message with our token.
    pub fn token(&self) -> (message: HandshakeMessage)
        ensures
            message matches HandshakeMessage::Confirm { token } && token@ == hex_text(
                token_of(self.key()@),
            ),
            token_of(self.key()@).len() == CONFIRM_TOKEN_LEN,
    {
        HandshakeMessage::confirm(self.key.confirm_token())
    }

    /// The peer's token, out of its message.
    pub fn read_token(&self, inbound: HandshakeMessage) -> (token: Result<[u8; 16], PairError>)
        ensures
            match token {
                Ok(token) => carries_token(inbound, token@),
                Err(PairError::Spake(error)) => token_refused(inbound, error),
                Err(_) => false,
            },
    {
        match inbound.into_confirm() {
            Ok(token) => Ok(token),
            Err(error) => Err(PairError::Spake(error)),
        }
    }

    /// Checks the peer's token. Only now is the key that of a peer with the same words.
    pub fn verify(self, token: [u8; 16]) -> (key: Result<SessionKey, PairError>)
        ensures
            match key {
                Ok(key) => key == self.key() && token@ == token_of(self.key()@),
                Err(error) => token@ != token_of(self.key()@) && error == PairError::Spake(
                    SpakeError::ConfirmationMismatch,
                ),
            },
    {
        match self.key.verify_confirm(token.as_slice()) {
            Ok(()) => Ok(self.key),
            Err(error) => Err(PairError::Spake(error)),
        }
    }
}

/// Two peers that start with the same words and are given each other's messages both derive a key,
/// the same one, so that each accepts the token that the other sends.
pub proof fn same_words_pair(
    words: Seq<u8>,
    a: Pairing,
    from_a: HandshakeMessage,
    out_a: Result<Confirming, PairError>,
    b: Pairing,
    from_b: HandshakeMessage,
    out_b: Result<Confirming, PairError>,
)
    requires
        a.started(words, from_a),
        b.started(words, from_b),
        a.derived(from_b, out_a),
        b.derived(from_a, out_b),
    ensures
        out_a is Ok && out_b is Ok,
        out_a->Ok_0.key()@ == out_b->Ok_0.key()@,
        token_of(out_a->Ok_0.key()@) == token_of(out_b->Ok_0.key()@),
{
    let key_a: Result<SessionKey, SpakeError> = finished_with(a, b, from_b, out_a);
    let key_b: Result<SessionKey, SpakeError> = finished_with(b, a, from_a, out_b);
    same_words_derive_the_same_key(a.inner(), b.inner(), key_a, key_b);
}

/// What `finish` returned inside `derive`, where the inbound message is that of a peer.
proof fn finished_with(
    pairing: Pairing,
    peer: Pairing,
    inbound: HandshakeMessage,
    out: Result<Confirming, PairError>,
) -> (key: Result<SessionKey, SpakeError>)
    requires
        pairing.derived(inbound, out),
        carries_pake(inbound, peer.inner().message()),
    ensures
        pairing.inner().finished(peer.inner().message(), key),
        match out {
            Ok(confirming) => key == Ok::<_, SpakeError>(confirming.key()),
            Err(PairError::Spake(error)) => key == Err::<SessionKey, _>(error),
            Err(_) => false,
        },
{
    match out {
        Ok(confirming) => {
            let bytes = choose|bytes: Seq<u8>| #[trigger]
                carries_pake(inbound, bytes) && pairing.inner().finished(
                    bytes,
                    Ok(confirming.key()),
                );
            assert(bytes == peer.inner().message());
            Ok(confirming.key())
        },
        Err(PairError::Spake(error)) => {
            assert(!pake_refused(inbound, error));
            let bytes = choose|bytes: Seq<u8>| #[trigger]
                carries_pake(inbound, bytes) && pairing.inner().finished(bytes, Err(error));
            assert(bytes == peer.inner().message());
            Err(error)
        },
        Err(_) => arbitrary(),
    }
}

/// Answers the peer's hello with our own; any other message is refused.
pub fn answer_hello(message: ControlMessage) -> (answer: Result<ControlMessage, PairError>)
    ensures
        match message {
            ControlMessage::Hello { .. } => answer == Ok::<_, PairError>(
                (ControlMessage::Hello { version: PROTOCOL_VERSION }),
            ),
            _ => answer matches Err(PairError::Not(kind)) && kind@ == "hello"@,
        },
{
    match message {
        ControlMessage::Hello { .. } => Ok(ControlMessage::Hello { version: PROTOCOL_VERSION }),
        _ => Err(PairError::Not("hello")),
    }
}

/// How reading on while the peer is to close the connection went.
#[derive(Debug, Clone, Copy, PartialEq, Eq, Structural)]
pub enum CloseRead {
    /// Some bytes came.
    Bytes,
    /// The stream ended.
    Ended,
    /// The stream failed.
    Failed,
    /// Nothing came in time.
    TimedOut,
}

/// Whether the peer has closed the connection, which is how it acknowledges our last message.
/// Bytes that still come are ignored; nothing is decided by them.
pub fn peer_closed(read: CloseRead, what: &'static str) -> (outcome: Option<Result<(), PairError>>)
    ensures
        match read {
            CloseRead::Bytes => outcome is None,
            CloseRead::Ended | CloseRead::Failed => outcome == Some(Ok::<_, PairError>(())),
            CloseRead::TimedOut => outcome == Some(Err::<(), _>(PairError::Hung(what))),
        },
{
    match read {
        CloseRead::Bytes => None,
        CloseRead::Ended | CloseRead::Failed => Some(Ok(())),
        CloseRead::TimedOut => Some(Err(PairError::Hung(what))),
    }
}

} // verus!
