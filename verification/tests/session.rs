//! Sessions and their control messages.
use worddrop::protocol::wire::{declared_length, WireError, MAX_FRAME_BYTES};
use worddrop::session::control::{
    message_read, ControlMessage, FileMeta, SessionError, PROTOCOL_VERSION,
};
use worddrop::session::state::{SessionPhase, Transition, TransitionError};
use worddrop::session::{Race, Session};

fn error_for(phase: SessionPhase, event: Transition) -> TransitionError {
    TransitionError { from: phase, event }
}

fn offer() -> ControlMessage {
    ControlMessage::Offer {
        files: vec![FileMeta {
            name: "photo.jpg".to_owned(),
            size: 4096,
            hash: "ab12cd34".to_owned(),
        }],
        total_bytes: 4096,
    }
}

fn drive_to(session: &mut Session, phase: SessionPhase) {
    for event in [
        Transition::StartPairing,
        Transition::PairConfirmed,
        Transition::TransferStarted,
    ] {
        if session.phase() == phase {
            return;
        }
        session.transition(event).expect("legal step");
    }
    assert_eq!(session.phase(), phase);
}

#[test]
fn session_state_start_pairing_advances_created_to_pending_pair() {
    assert_eq!(
        SessionPhase::Created.transition(Transition::StartPairing).unwrap(),
        SessionPhase::PendingPair
    );
}

#[test]
fn session_state_legal_path_reaches_done() {
    let phase = SessionPhase::Created
        .transition(Transition::StartPairing)
        .unwrap()
        .transition(Transition::PairConfirmed)
        .unwrap()
        .transition(Transition::TransferStarted)
        .unwrap()
        .transition(Transition::Completed)
        .unwrap();
    assert_eq!(phase, SessionPhase::Done);
}

#[test]
fn session_state_skip_pair_stage_is_illegal() {
    assert_eq!(
        SessionPhase::Created.transition(Transition::PairConfirmed).unwrap_err(),
        error_for(SessionPhase::Created, Transition::PairConfirmed)
    );
    assert_eq!(
        SessionPhase::PendingPair.transition(Transition::TransferStarted).unwrap_err(),
        error_for(SessionPhase::PendingPair, Transition::TransferStarted)
    );
    assert_eq!(
        SessionPhase::Paired.transition(Transition::Completed).unwrap_err(),
        error_for(SessionPhase::Paired, Transition::Completed)
    );
}

#[test]
fn session_state_done_is_terminal_and_rejects_all_events() {
    let done = SessionPhase::Done;
    assert!(done.is_terminal());
    for event in [
        Transition::StartPairing,
        Transition::PairConfirmed,
        Transition::TransferStarted,
        Transition::Completed,
        Transition::Cancelled,
        Transition::Failed,
    ] {
        assert_eq!(done.transition(event).unwrap_err(), error_for(done, event));
    }
}

#[test]
fn session_state_cancelled_and_failed_are_terminal() {
    assert!(SessionPhase::Cancelled.is_terminal());
    assert!(SessionPhase::Failed.is_terminal());
    assert!(!SessionPhase::Transferring.is_terminal());
}

#[test]
fn session_state_cancel_from_any_phase_converges_to_cancelled() {
    for from in [
        SessionPhase::Created,
        SessionPhase::PendingPair,
        SessionPhase::Paired,
        SessionPhase::Transferring,
    ] {
        assert_eq!(from.transition(Transition::Cancelled).unwrap(), SessionPhase::Cancelled);
    }
}

#[test]
fn session_state_failed_from_any_phase_converges_to_failed() {
    for from in [
        SessionPhase::Created,
        SessionPhase::PendingPair,
        SessionPhase::Paired,
        SessionPhase::Transferring,
    ] {
        assert_eq!(from.transition(Transition::Failed).unwrap(), SessionPhase::Failed);
    }
}

#[test]
fn session_state_display_is_snake_case() {
    assert_eq!(SessionPhase::Created.to_string(), "created");
    assert_eq!(SessionPhase::PendingPair.to_string(), "pending_pair");
    assert_eq!(SessionPhase::Paired.to_string(), "paired");
    assert_eq!(SessionPhase::Transferring.to_string(), "transferring");
    assert_eq!(SessionPhase::Done.to_string(), "done");
    assert_eq!(SessionPhase::Cancelled.to_string(), "cancelled");
    assert_eq!(SessionPhase::Failed.to_string(), "failed");
}

#[test]
fn session_state_transition_error_display_names_both_sides() {
    let err = SessionPhase::Done.transition(Transition::TransferStarted).unwrap_err();
    let message = err.to_string();
    assert!(message.contains("done"), "message: {message}");
    assert!(message.contains("transfer_started"), "message: {message}");
}

#[test]
fn session_created_initial_phase() {
    assert_eq!(Session::new().phase(), SessionPhase::Created);
    assert_eq!(Session::default().phase(), SessionPhase::Created);
}

#[test]
fn session_transition_updates_phase() {
    let mut session = Session::new();
    session.transition(Transition::StartPairing).unwrap();
    assert_eq!(session.phase(), SessionPhase::PendingPair);
}

#[test]
fn session_cancel_signals_watch_channel() {
    let mut session = Session::new();
    assert!(!session.is_cancelled());
    let phase = session.cancel().expect("cancel from Created succeeds");
    assert_eq!(phase, SessionPhase::Cancelled);
    assert!(session.is_cancelled());
}

#[test]
fn session_cancel_from_each_phase_converges_to_cancelled() {
    for phase in [
        SessionPhase::Created,
        SessionPhase::PendingPair,
        SessionPhase::Paired,
        SessionPhase::Transferring,
    ] {
        let mut session = Session::new();
        drive_to(&mut session, phase);
        let cancelled = session.cancel().expect("cancel succeeds");
        assert_eq!(cancelled, SessionPhase::Cancelled);
        assert_eq!(session.phase(), SessionPhase::Cancelled);
    }
}

#[test]
fn session_cancel_from_terminal_errors() {
    let mut session = Session::new();
    drive_to(&mut session, SessionPhase::Transferring);
    session.transition(Transition::Completed).unwrap();
    assert!(session.cancel().is_err());
    assert!(!session.is_cancelled());
    assert_eq!(session.phase(), SessionPhase::Done);
}

#[test]
fn session_race_returns_value_when_not_cancelled() {
    let session = Session::new();
    assert_eq!(Race::settle(session.is_cancelled(), Some(42)), Some(Race::Value(42)));
    assert_eq!(Race::<i32>::settle(false, None), None);
}

#[test]
fn session_race_returns_cancelled_when_signalled() {
    let mut session = Session::new();
    session.cancel().unwrap();
    assert_eq!(Race::settle(session.is_cancelled(), Some(42)), Some(Race::Cancelled));
}

#[test]
fn session_control_check_version_rejects_wrong_hello_only() {
    assert!(matches!(
        ControlMessage::Hello { version: PROTOCOL_VERSION + 1 }.check_version(),
        Err(SessionError::VersionMismatch { got: 2, expected: 1 })
    ));
    assert!(ControlMessage::Hello { version: PROTOCOL_VERSION }.check_version().is_ok());
    assert!(offer().check_version().is_ok());
}

#[test]
fn session_control_recv_truncated_stream_is_unexpected_eof() {
    assert_eq!(
        SessionError::from_read(true, "eof".to_string()),
        SessionError::UnexpectedEof
    );
    assert_eq!(
        SessionError::from_read(false, "reset".to_string()),
        SessionError::Io("reset".to_string())
    );
}

#[test]
fn session_control_recv_over_cap_length_is_frame_too_large() {
    let prefix = (MAX_FRAME_BYTES as u32 + 1).to_le_bytes();
    assert!(matches!(
        declared_length(prefix).map_err(SessionError::Wire),
        Err(SessionError::Wire(WireError::FrameTooLarge { .. }))
    ));
}

#[test]
fn session_errors_read_as_sentences() {
    assert_eq!(
        SessionError::Timeout { context: "sender hello", limit: 30000 }.to_string(),
        "timed out after 30s waiting for sender hello"
    );
    assert_eq!(
        SessionError::VersionMismatch { got: 2, expected: 1 }.to_string(),
        "protocol version mismatch: got 2, expected 1"
    );
    assert_eq!(
        SessionError::Wire(WireError::MissingLengthPrefix).to_string(),
        "wire error: frame shorter than the 4-byte length prefix"
    );
    assert_eq!(
        SessionError::UnexpectedEof.to_string(),
        "connection closed by peer mid-message"
    );
}

#[test]
fn messages_are_shown_as_debug_prints_them() {
    for message in [
        offer(),
        ControlMessage::Hello { version: 1 },
        ControlMessage::Accept,
        ControlMessage::Cancel,
        ControlMessage::Decline { reason: "a \"b\"\n".to_string() },
        ControlMessage::Offer { files: Vec::new(), total_bytes: 0 },
        ControlMessage::Result { bytes: 4096, files: 1, skipped_bytes: 0, skipped_files: 2 },
    ] {
        assert_eq!(message.shown(), format!("{message:?}"));
    }
}

#[test]
fn phases_never_go_back() {
    let order = [
        SessionPhase::Created,
        SessionPhase::PendingPair,
        SessionPhase::Paired,
        SessionPhase::Transferring,
        SessionPhase::Done,
    ];
    for (rank, phase) in order.iter().enumerate() {
        for event in [
            Transition::StartPairing,
            Transition::PairConfirmed,
            Transition::TransferStarted,
            Transition::Completed,
        ] {
            if let Ok(next) = phase.transition(event) {
                assert_eq!(order[rank + 1], next);
            }
        }
    }
}

#[test]
fn a_payload_is_a_message_unless_it_does_not_parse_or_greets_in_another_version() {
    let hello = |version: u32| ControlMessage::Hello { version };
    assert_eq!(message_read(Ok(hello(PROTOCOL_VERSION))), Ok(hello(PROTOCOL_VERSION)));
    assert_eq!(message_read(Ok(offer())), Ok(offer()));
    assert_eq!(
        message_read(Ok(hello(PROTOCOL_VERSION + 1))),
        Err(SessionError::VersionMismatch {
            got: PROTOCOL_VERSION + 1,
            expected: PROTOCOL_VERSION,
        })
    );
    assert_eq!(
        message_read(Err("expected value".to_string())),
        Err(SessionError::Wire(WireError::Deserialize("expected value".to_string())))
    );
}
