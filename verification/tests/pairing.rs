//! The key exchange, its messages and its frames.
use rand_chacha::rand_core::SeedableRng;
use worddrop::pairing::handshake::{hex_decode, hex_encode, HandshakeMessage};
use worddrop::pairing::spake::{
    ProtocolError, SessionKey, SpakeError, SpakeSession, CONFIRM_TOKEN_LEN, SPAKE_MSG_LEN,
};
use worddrop::protocol::wire::WireMessage;
use worddrop::session::control::ControlMessage;
use worddrop::wire::{answer_hello, peer_closed, CloseRead, PairError, Pairing};

fn pair_sessions(words_a: &[u8], words_b: &[u8]) -> (SessionKey, SessionKey) {
    let (a, msg_a) = SpakeSession::start(words_a);
    let (b, msg_b) = SpakeSession::start(words_b);
    let key_a = match a.finish(&msg_b) {
        Ok(key) => key,
        Err(error) => panic!("a finishes the exchange: {error:?}"),
    };
    let key_b = match b.finish(&msg_a) {
        Ok(key) => key,
        Err(error) => panic!("b finishes the exchange: {error:?}"),
    };
    (key_a, key_b)
}

fn refusal(session: SpakeSession, inbound: &[u8]) -> SpakeError {
    match session.finish(inbound) {
        Ok(_) => panic!("the message is refused"),
        Err(error) => error,
    }
}

#[test]
fn handshake_rejects_wrong_length_spake() {
    let err = HandshakeMessage::spake(&[0u8; 10]).unwrap_err();
    assert!(matches!(
        err,
        SpakeError::BadHandshakeLength { kind: "spake", expected: SPAKE_MSG_LEN, actual: 10 }
    ));
}

#[test]
fn handshake_rejects_invalid_hex() {
    let msg = HandshakeMessage::Spake { msg: "zz".to_string() };
    let err = msg.into_pake().unwrap_err();
    assert!(matches!(err, SpakeError::InvalidHex(_)));
}

#[test]
fn hex_roundtrip() {
    let bytes = b"\x00\x01\xab\xffworddrop";
    let encoded = hex_encode(bytes);
    assert_eq!(encoded, "0001abff776f726464726f70");
    assert_eq!(hex_decode(&encoded).unwrap(), bytes);
}

#[test]
fn hex_reads_either_case_and_no_other_characters() {
    assert_eq!(hex_decode("AbfF").unwrap(), vec![0xab, 0xff]);
    assert_eq!(hex_decode("").unwrap(), Vec::<u8>::new());
    for bad in ["a", "0g", " 0", "0x", "é"] {
        let err = hex_decode(bad).unwrap_err();
        assert_eq!(err, SpakeError::InvalidHex(bad.to_string()), "{bad}");
    }
    assert_eq!(hex_decode("0g").unwrap_err().to_string(), "invalid hex string: \"0g\"");
}

#[test]
fn outbound_message_is_33_bytes() {
    let (_, msg) = SpakeSession::start(b"correct-horse-battery");
    assert_eq!(msg.len(), SPAKE_MSG_LEN);
}

#[test]
fn a_seed_determines_the_exchange() {
    let words = b"correct-horse-battery";
    let seed = [7u8; 32];
    let (ours, message) = SpakeSession::start_seeded(words, seed);
    let (theirs, expected) =
        spake2::Spake2::<spake2::Ed25519Group>::start_symmetric_with_rng(
            &spake2::Password::new(words),
            &spake2::Identity::new(b"my-croc/v1"),
            rand_chacha::ChaCha20Rng::from_seed(seed),
        );
    assert_eq!(message, expected);
    assert_ne!(SpakeSession::start_seeded(words, [8u8; 32]).1, expected);
    assert_ne!(SpakeSession::start_seeded(b"wrong-horse-battery", seed).1, expected);

    let (_, inbound) = SpakeSession::start(words);
    let key = match ours.finish(&inbound) {
        Ok(key) => key,
        Err(error) => panic!("the exchange completes: {error:?}"),
    };
    assert_eq!(key.as_bytes().to_vec(), theirs.finish(&inbound).expect("the same exchange"));
}

#[test]
fn every_exchange_has_a_secret_of_its_own() {
    let (_, first) = SpakeSession::start(b"correct-horse-battery");
    let (_, second) = SpakeSession::start(b"correct-horse-battery");
    assert_ne!(first, second);
}

#[test]
fn same_words_derive_identical_key() {
    let words = b"correct-horse-battery";
    let (key_a, key_b) = pair_sessions(words, words);
    assert!(key_a == key_b);
    assert_eq!(key_a.confirm_token(), key_b.confirm_token());
    key_a.verify_confirm(&key_b.confirm_token()).expect("a accepts b's confirmation token");
    key_b.verify_confirm(&key_a.confirm_token()).expect("b accepts a's confirmation token");
}

#[test]
fn different_words_derive_different_keys() {
    let (key_a, key_b) = pair_sessions(b"correct-horse-battery", b"wrong-horse-battery");
    assert!(key_a != key_b);
    assert_ne!(key_a.confirm_token(), key_b.confirm_token());
    let err = key_a.verify_confirm(&key_b.confirm_token()).unwrap_err();
    assert!(matches!(err, SpakeError::ConfirmationMismatch));
    let err = key_b.verify_confirm(&key_a.confirm_token()).unwrap_err();
    assert!(matches!(err, SpakeError::ConfirmationMismatch));
}

#[test]
fn tampered_message_wrong_length_is_rejected() {
    let (session, _) = SpakeSession::start(b"correct-horse-battery");
    let err = refusal(session, &[0u8; 10]);
    assert!(matches!(err, SpakeError::Protocol(ProtocolError::WrongLength)));
}

#[test]
fn tampered_message_bad_side_is_rejected() {
    let (session, msg) = SpakeSession::start(b"correct-horse-battery");
    let mut tampered = msg;
    tampered[0] = 0x41; // 'A': symmetric mode expects the 'S' side marker
    let err = refusal(session, &tampered);
    assert!(matches!(err, SpakeError::Protocol(ProtocolError::BadSide)));
}

#[test]
fn tampered_message_corrupt_point_is_rejected() {
    let (session, msg) = SpakeSession::start(b"correct-horse-battery");
    let mut tampered = msg;
    // A fixed encoding (y = 2) whose x-coordinate is a non-residue mod p: rejected on every run.
    tampered[1..].fill(0);
    tampered[1] = 2;
    let err = refusal(session, &tampered);
    assert!(matches!(err, SpakeError::Protocol(ProtocolError::CorruptMessage)));
}

#[test]
fn confirmation_token_mismatch_is_rejected() {
    let (key_a, _) = pair_sessions(b"correct-horse-battery", b"correct-horse-battery");
    let wrong = [0u8; CONFIRM_TOKEN_LEN];
    let err = key_a.verify_confirm(&wrong).unwrap_err();
    assert!(matches!(err, SpakeError::ConfirmationMismatch));
    let err = key_a.verify_confirm(&[]).unwrap_err();
    assert!(matches!(err, SpakeError::ConfirmationMismatch));
}

/// The JSON of a handshake message, as it stands in a frame.
fn to_json(message: &HandshakeMessage) -> Vec<u8> {
    let (kind, field, value) = match message {
        HandshakeMessage::Spake { msg } => ("spake", "msg", msg),
        HandshakeMessage::Confirm { token } => ("confirm", "token", token),
    };
    let mut object = serde_json::Map::new();
    object.insert("type".to_string(), serde_json::Value::from(kind));
    object.insert(field.to_string(), serde_json::Value::from(value.as_str()));
    serde_json::to_vec(&object).expect("serializes")
}

fn from_json(body: &[u8]) -> HandshakeMessage {
    let value: serde_json::Value = serde_json::from_slice(body).expect("valid json");
    let text = |key: &str| value[key].as_str().expect("text").to_string();
    match text("type").as_str() {
        "spake" => HandshakeMessage::Spake { msg: text("msg") },
        _ => HandshakeMessage::Confirm { token: text("token") },
    }
}

fn frame(message: &HandshakeMessage) -> Vec<u8> {
    WireMessage::new(to_json(message)).encode().expect("frame encodes")
}

fn unframe(frame: &[u8]) -> HandshakeMessage {
    from_json(&WireMessage::<Vec<u8>>::decode(frame).expect("frame decodes").into_inner())
}

#[test]
fn handshake_completes_over_wire_frames() {
    let words = b"correct-horse-battery";
    let (a, msg_a) = SpakeSession::start(words);
    let (b, msg_b) = SpakeSession::start(words);

    let frame_a = frame(&HandshakeMessage::spake(&msg_a).expect("33-byte pake msg"));
    let frame_b = frame(&HandshakeMessage::spake(&msg_b).expect("33-byte pake msg"));
    let recv_a = unframe(&frame_b).into_pake().expect("a recovers b's pake bytes");
    let recv_b = unframe(&frame_a).into_pake().expect("b recovers a's pake bytes");

    let key_a = match a.finish(&recv_a) {
        Ok(key) => key,
        Err(error) => panic!("a derives the session key: {error:?}"),
    };
    let key_b = match b.finish(&recv_b) {
        Ok(key) => key,
        Err(error) => panic!("b derives the session key: {error:?}"),
    };
    assert!(key_a == key_b);

    let frame_a = frame(&HandshakeMessage::confirm(key_a.confirm_token()));
    let frame_b = frame(&HandshakeMessage::confirm(key_b.confirm_token()));
    let token_from_b = unframe(&frame_b).into_confirm().expect("a recovers b's token");
    let token_from_a = unframe(&frame_a).into_confirm().expect("b recovers a's token");
    key_a.verify_confirm(&token_from_b).expect("a confirms b");
    key_b.verify_confirm(&token_from_a).expect("b confirms a");
}

#[test]
fn messages_of_the_wrong_round_are_refused() {
    let confirm = HandshakeMessage::confirm([7u8; 16]);
    assert_eq!(confirm.into_pake().unwrap_err(), SpakeError::WrongHandshakeKind);
    let spake = HandshakeMessage::spake(&[0u8; 33]).unwrap();
    assert_eq!(spake.into_confirm().unwrap_err(), SpakeError::WrongHandshakeKind);
    let short = HandshakeMessage::Confirm { token: "00ff".to_string() };
    assert_eq!(
        short.into_confirm().unwrap_err(),
        SpakeError::BadHandshakeLength { kind: "confirm", expected: 16, actual: 2 }
    );
}

#[test]
fn handshake_messages_read_back() {
    let bytes: Vec<u8> = (0..33).collect();
    let message = HandshakeMessage::spake(&bytes).unwrap();
    assert_eq!(message.into_pake().unwrap().to_vec(), bytes);
    let token: [u8; 16] = [0xa5; 16];
    assert_eq!(HandshakeMessage::confirm(token).into_confirm().unwrap(), token);
}

#[test]
fn the_confirmation_token_is_derived_from_the_key() {
    let (key, _) = pair_sessions(b"correct-horse-battery", b"correct-horse-battery");
    let mut expected = [0u8; 16];
    hkdf::Hkdf::<sha2::Sha256>::new(None, key.as_bytes())
        .expand(b"my-croc/confirm", &mut expected)
        .expect("16 bytes");
    assert_eq!(key.confirm_token(), expected);
    assert_ne!(&key.as_bytes()[..16], &expected[..]);
}

#[test]
fn a_key_is_never_shown() {
    let (key, _) = pair_sessions(b"w", b"w");
    assert!(!key.redacted().contains(&hex_encode(key.as_bytes())));
}

#[test]
fn exchange_errors_read_as_sentences() {
    assert_eq!(
        SpakeError::Protocol(ProtocolError::WrongLength).to_string(),
        "spake2 protocol error: invalid length"
    );
    assert_eq!(
        SpakeError::ConfirmationMismatch.to_string(),
        "key-confirmation token mismatch"
    );
    assert_eq!(
        SpakeError::KeyLengthMismatch { expected: 32, actual: 31 }.to_string(),
        "derived key length 31, expected 32"
    );
}

/// Runs both sides of the exchange against each other.
fn exchange(
    words_a: &[u8],
    words_b: &[u8],
) -> (Result<SessionKey, PairError>, Result<SessionKey, PairError>) {
    let (a, hello_a) = Pairing::start(words_a);
    let (b, hello_b) = Pairing::start(words_b);
    let a = match a.derive(hello_b) {
        Ok(confirming) => confirming,
        Err(error) => panic!("a derives: {error:?}"),
    };
    let b = match b.derive(hello_a) {
        Ok(confirming) => confirming,
        Err(error) => panic!("b derives: {error:?}"),
    };
    let (token_a, token_b) = (a.token(), b.token());
    let for_a = a.read_token(token_b).expect("token");
    let for_b = b.read_token(token_a).expect("token");
    (a.verify(for_a), b.verify(for_b))
}

#[test]
fn spake_roundtrip_with_same_words_derives_same_key() {
    let words = b"correct-horse-battery";
    match exchange(words, words) {
        (Ok(a), Ok(b)) => assert_eq!(a.as_bytes(), b.as_bytes()),
        _ => panic!("both sides succeed"),
    }
}

#[test]
fn spake_roundtrip_with_different_words_fails_confirmation() {
    let (a, b) = exchange(b"correct-horse-battery", b"wrong-horse-battery");
    for result in [a, b] {
        assert!(
            matches!(result, Err(PairError::Spake(SpakeError::ConfirmationMismatch))),
            "mismatch must surface as ConfirmationMismatch"
        );
    }
}

#[test]
fn recv_hello_rejects_non_hello_message() {
    let err = answer_hello(ControlMessage::Cancel).expect_err("non-hello rejected");
    assert!(matches!(err, PairError::Not("hello")));
}

#[test]
fn recv_hello_echoes_hello_for_version_gate() {
    let echoed = answer_hello(ControlMessage::Hello { version: 1 }).expect("hello accepted");
    assert_eq!(echoed, ControlMessage::Hello { version: 1 });
}

#[test]
fn await_peer_close_returns_on_clean_eof() {
    assert_eq!(peer_closed(CloseRead::Ended, "peer close"), Some(Ok(())));
    assert_eq!(peer_closed(CloseRead::Failed, "peer close"), Some(Ok(())));
}

#[test]
fn await_peer_close_times_out_on_silent_peer() {
    assert_eq!(peer_closed(CloseRead::Bytes, "silent peer"), None);
    assert_eq!(
        peer_closed(CloseRead::TimedOut, "silent peer"),
        Some(Err(PairError::Hung("silent peer")))
    );
}

#[test]
fn pairing_errors_are_bilingual() {
    assert!(PairError::Io("x".to_string()).to_string().contains("io error: x"));
    assert!(PairError::Spake(SpakeError::ConfirmationMismatch)
        .to_string()
        .contains("pairing code mismatch"));
    assert!(PairError::Hung("peer").to_string().contains("peer"));
    assert!(PairError::Not("hello").to_string().contains("hello"));
}
