//! The send and the receive flow, and how they meet.
use rand::rngs::StdRng;
use rand::SeedableRng;
use worddrop::pairing::spake::SpakeError;
use worddrop::pairing::wordcode::{WordCode, WordCodeError};
use worddrop::protocol::wire::WireError;
use worddrop::receive::{
    accept_prompt, awaits_relay, display_offer, is_yes, read_code, resumes, Answer, Claimed,
    CodeInput, DialOut, Offered, Paired, ReceiveFlow, ReceiveOutcome, RecvError, RecvPhase,
    RecvStep,
};
use worddrop::relay::RelayMode;
use worddrop::rendezvous_client::{Allocation, RvError};
use worddrop::send::{
    describe_files, progress_position, result_matches, Awaited, DialIn, SendError, SendFlow,
    SendOutcome, SendPhase, SendStep, StreamOpen,
};
use worddrop::session::control::{ControlMessage, FileMeta, SessionError};
use worddrop::transfer::receive::{ReceiveError, TransferResult};
use worddrop::transfer::send::{PreparedFile, PreparedTransfer};
use worddrop::wire::PairError;

fn rng() -> StdRng {
    StdRng::seed_from_u64(2)
}

fn prepared() -> PreparedTransfer {
    PreparedTransfer {
        ticket: "blob-ticket".to_string(),
        collection_hash: [1; 32],
        files: vec![
            PreparedFile {
                path: "/tmp/a".to_string(),
                name: "a".to_string(),
                size: 100,
                hash: [0xab; 32],
            },
            PreparedFile {
                path: "/tmp/b".to_string(),
                name: "b".to_string(),
                size: 100,
                hash: [0xcd; 32],
            },
        ],
        total_bytes: 200,
    }
}

/// A send with the given nameplate, up to the moment a receiver has opened its stream; and its
/// code.
fn send_until_greeting(nameplate: u32) -> (SendFlow, String) {
    let mut flow = SendFlow::new();
    assert_eq!(flow.phase(), SendPhase::Prepare);
    flow.prepared(Ok(prepared())).expect("prepared");
    assert_eq!(flow.ticket(), "blob-ticket");
    let code = flow
        .allocated(Ok(Allocation { nameplate, expires_at: 0 }), &mut rng())
        .expect("code");
    assert_eq!(flow.phase(), SendPhase::Publish, "the ticket goes out before the code is shown");
    assert_eq!(flow.published(Ok(())), Ok(()));
    assert_eq!(flow.phase(), SendPhase::AwaitReceiver);
    assert!(matches!(flow.dialed_in(DialIn::Connected), Ok(SendStep::Continue)));
    flow.stream_opened(StreamOpen::Opened).expect("stream");
    assert_eq!(flow.phase(), SendPhase::Greet);
    (flow, code)
}

/// A receive with the given code, up to the moment its hello goes out.
fn receive_until_greeting(
    code: &str,
    auto_accept: Option<bool>,
    relay: &RelayMode,
) -> (ReceiveFlow, ControlMessage) {
    let mut flow = ReceiveFlow::new(None, auto_accept);
    assert_eq!(flow.output(), ".");
    assert!(matches!(
        flow.code_entered(CodeInput::Given(format!(" {code}\n"))),
        Ok(RecvStep::Continue)
    ));
    assert!(matches!(
        flow.claimed(Claimed::Ticket("blob-ticket".to_string())),
        Ok(RecvStep::Continue)
    ));
    assert_eq!(flow.ticket(), "blob-ticket");
    flow.ticket_read(true).expect("ticket");
    flow.engine_started(Ok(()), relay).expect("engine");
    if awaits_relay(relay) {
        assert_eq!(flow.phase(), RecvPhase::Relay);
        flow.relay_awaited(true).expect("relay");
    }
    flow.output_resolved(Ok("/tmp/out".to_string())).expect("output");
    assert!(matches!(flow.dialed(DialOut::Connected), Ok(RecvStep::Continue)));
    match flow.stream_opened(Ok(())) {
        Ok(RecvStep::Send(hello)) => (flow, hello),
        other => panic!("{other:?}"),
    }
}

/// Both flows, paired, with the offer on its way.
fn paired_flows(auto_accept: Option<bool>) -> (SendFlow, ReceiveFlow, ControlMessage) {
    let (mut sender, code) = send_until_greeting(7);
    let (mut receiver, hello) =
        receive_until_greeting(&code, auto_accept, &RelayMode::Disabled);
    assert_eq!(receiver.nameplate(), 7);
    assert_eq!(receiver.words(), sender.words(), "both sides hold the same words");
    let words = sender.words().to_string();
    let answer = sender.greeted(Ok(hello)).expect("hello answered");
    receiver.greeted(Ok(answer)).expect("hello read");
    assert!(matches!(receiver.paired(Paired::Confirmed), Ok(RecvStep::Continue)));
    let offer = sender.paired(Ok(())).expect("offer");
    assert_eq!(sender.words(), words);
    assert_eq!(sender.ticket(), "blob-ticket");
    (sender, receiver, offer)
}

fn accepted_flows() -> (SendFlow, ReceiveFlow) {
    let (mut sender, mut receiver, offer) = paired_flows(Some(true));
    assert!(matches!(receiver.offered(Offered::Message(offer)), Ok(RecvStep::Continue)));
    assert!(!receiver.asks());
    match receiver.decided(Answer::Nothing) {
        Ok(RecvStep::Send(accept)) => {
            assert_eq!(accept, ControlMessage::Accept);
            assert_eq!(receiver.phase(), RecvPhase::Accept);
            receiver.accept_sent(Ok(())).expect("the transfer starts");
            assert!(matches!(
                sender.answered(Awaited::Message(accept)),
                Ok(SendStep::Continue)
            ));
        }
        other => panic!("{other:?}"),
    }
    (sender, receiver)
}

fn result(bytes: u64, files: usize, skipped_bytes: u64, skipped_files: usize) -> TransferResult {
    TransferResult { bytes, files, skipped: Vec::new(), skipped_bytes, skipped_files }
}

#[test]
fn result_matches_counts_skipped_as_delivered() {
    assert!(result_matches(100, 1, 100, 1, 200, 2));
    assert!(result_matches(0, 0, 18_369_543, 1, 18_369_543, 1));
    assert!(result_matches(200, 2, 0, 0, 200, 2));
}

#[test]
fn result_matches_rejects_partial_accounting() {
    assert!(!result_matches(100, 1, 50, 1, 200, 2));
    assert!(!result_matches(100, 1, 100, 0, 200, 2));
    assert!(!result_matches(0, 0, 0, 0, 200, 2));
    assert!(!result_matches(u64::MAX, 1, 1, 0, 0, 1), "a sum that overflows matches nothing");
    assert!(!result_matches(0, u32::MAX, 0, 1, 0, 0));
}

#[test]
fn send_flow_accept_transfers_files_byte_for_byte() {
    let (mut sender, mut receiver) = accepted_flows();
    assert_eq!(receiver.phase(), RecvPhase::Download);
    let (report, outcome) = receiver.downloaded(Ok(result(200, 2, 0, 0)));
    assert!(outcome.is_ok());
    match sender.transferred(Awaited::Message(report)) {
        Ok(SendStep::End { last_words: None, outcome }) => assert_eq!(
            outcome,
            SendOutcome::Completed { bytes: 200, files: 2, skipped_bytes: 0, skipped_files: 0 }
        ),
        other => panic!("{other:?}"),
    }
    assert_eq!(
        receiver.closed(Ok(())),
        Ok(ReceiveOutcome::Completed { bytes: 200, files: 2, skipped_files: 0 })
    );
    assert_eq!(receiver.phase(), RecvPhase::Ended);
    assert_eq!(sender.phase(), SendPhase::Ended);
}

#[test]
fn receive_flow_accept_downloads_all_files() {
    let (_, mut receiver, offer) = paired_flows(None);
    assert!(matches!(receiver.offered(Offered::Message(offer)), Ok(RecvStep::Continue)));
    assert!(receiver.asks());
    assert_eq!(receiver.total(), 200);
    assert_eq!(receiver.files().len(), 2);
    assert_eq!(receiver.files()[0].name, "a");
    assert_eq!(receiver.files()[0].hash, "ab".repeat(32));
    assert!(matches!(
        receiver.decided(Answer::Line("YES\n".to_string())),
        Ok(RecvStep::Send(ControlMessage::Accept))
    ));
    receiver.accept_sent(Ok(())).expect("the transfer starts");
    let (report, _) = receiver.downloaded(Ok(result(100, 1, 100, 1)));
    assert_eq!(
        report,
        ControlMessage::Result { bytes: 100, files: 1, skipped_bytes: 100, skipped_files: 1 }
    );
    assert_eq!(
        receiver.closed(Ok(())),
        Ok(ReceiveOutcome::Completed { bytes: 100, files: 1, skipped_files: 1 })
    );
}

#[test]
fn send_flow_decline_reaches_the_sender() {
    for answer in [Answer::Line("n".to_string()), Answer::Nothing, Answer::Line(String::new())] {
        let (mut sender, mut receiver, offer) = paired_flows(None);
        assert!(matches!(receiver.offered(Offered::Message(offer)), Ok(RecvStep::Continue)));
        let decline = match receiver.decided(answer) {
            Ok(RecvStep::Send(decline)) => decline,
            other => panic!("{other:?}"),
        };
        match sender.answered(Awaited::Message(decline)) {
            Ok(SendStep::End { last_words: None, outcome }) => {
                assert_eq!(
                    outcome,
                    SendOutcome::Declined { reason: "user declined".to_string() }
                );
            }
            other => panic!("{other:?}"),
        }
        assert_eq!(receiver.closed(Ok(())), Ok(ReceiveOutcome::Declined));
    }
}

#[test]
fn receive_flow_decline_reached_sender() {
    let (_, mut receiver, offer) = paired_flows(Some(false));
    assert!(matches!(receiver.offered(Offered::Message(offer)), Ok(RecvStep::Continue)));
    assert!(matches!(
        receiver.decided(Answer::Line("yes".to_string())),
        Ok(RecvStep::Send(ControlMessage::Decline { .. }))
    ));
    assert_eq!(receiver.phase(), RecvPhase::AwaitCloseDeclined);
    assert_eq!(
        receiver.closed(Err(PairError::Hung("sender to close after decline"))),
        Err(RecvError::Pair(PairError::Hung("sender to close after decline")))
    );
}

#[test]
fn receive_flow_wrong_words_fails_cleanly() {
    let (mut receiver, _) =
        receive_until_greeting("7-wrong-horse-battery", None, &RelayMode::Default);
    receiver.greeted(Ok(ControlMessage::Hello { version: 1 })).expect("hello");
    let mismatch = PairError::Spake(SpakeError::ConfirmationMismatch);
    match receiver.paired(Paired::Failed(mismatch.clone())) {
        Err(error) => assert_eq!(error, RecvError::Pair(mismatch)),
        other => panic!("{other:?}"),
    }
    assert_eq!(receiver.phase(), RecvPhase::Ended);
}

#[test]
fn send_flow_local_interrupt_cancels_cleanly() {
    let mut flow = SendFlow::new();
    flow.prepared(Ok(prepared())).expect("prepared");
    flow.allocated(Ok(Allocation { nameplate: 1, expires_at: 0 }), &mut rng()).expect("code");
    flow.published(Ok(())).expect("published");
    match flow.dialed_in(DialIn::Interrupted) {
        Ok(SendStep::End { last_words: None, outcome: SendOutcome::Cancelled }) => {}
        other => panic!("{other:?}"),
    }

    let (mut sender, _, _) = paired_flows(None);
    match sender.answered(Awaited::Interrupted) {
        Ok(SendStep::End {
            last_words: Some(ControlMessage::Cancel),
            outcome: SendOutcome::Cancelled,
        }) => {}
        other => panic!("{other:?}"),
    }

    let (mut sender, mut receiver) = accepted_flows();
    assert!(matches!(
        sender.transferred(Awaited::Interrupted),
        Ok(SendStep::End { last_words: Some(ControlMessage::Cancel), .. })
    ));
    let (message, outcome) = receiver.downloaded(Err(ReceiveError::ConnectTimeout));
    assert_eq!(message, ControlMessage::Cancel);
    assert_eq!(outcome, Err(RecvError::Receive(ReceiveError::ConnectTimeout)));
}

#[test]
fn a_cancelling_peer_ends_the_send() {
    let (mut sender, _, _) = paired_flows(None);
    assert!(matches!(
        sender.answered(Awaited::Message(ControlMessage::Cancel)),
        Ok(SendStep::End { last_words: None, outcome: SendOutcome::Cancelled })
    ));
    let (mut sender, _) = accepted_flows();
    assert!(matches!(
        sender.transferred(Awaited::Message(ControlMessage::Cancel)),
        Ok(SendStep::End { last_words: None, outcome: SendOutcome::Cancelled })
    ));
}

#[test]
fn a_result_that_does_not_add_up_is_refused() {
    let (mut sender, _) = accepted_flows();
    let report =
        ControlMessage::Result { bytes: 100, files: 1, skipped_bytes: 0, skipped_files: 0 };
    let error = match sender.transferred(Awaited::Message(report)) {
        Err(error) => error,
        other => panic!("{other:?}"),
    };
    assert_eq!(
        error,
        SendError::ResultMismatch {
            expected_bytes: 200,
            expected_files: 2,
            got_bytes: 100,
            got_files: 1
        }
    );
    assert_eq!(
        error.to_string(),
        "receiver result mismatch: expected 200 bytes / 2 files, got 100 / 1"
    );
}

#[test]
fn messages_out_of_turn_are_refused() {
    let (mut sender, mut receiver, _) = paired_flows(None);
    let accept = ControlMessage::Accept;
    assert!(matches!(
        sender.answered(Awaited::Message(ControlMessage::Hello { version: 1 })),
        Err(SendError::UnexpectedMessage(ControlMessage::Hello { version: 1 }))
    ));
    match receiver.offered(Offered::Message(accept.clone())) {
        Err(error) => {
            assert_eq!(error, RecvError::UnexpectedMessage(accept.clone()));
            assert!(error.to_string().ends_with("unexpected control message: Accept"));
        }
        other => panic!("{other:?}"),
    }
    let (mut sender, _) = accepted_flows();
    assert!(matches!(
        sender.transferred(Awaited::Message(accept)),
        Err(SendError::UnexpectedMessage(_))
    ));
    let (mut sender, _) = send_until_greeting(3);
    assert_eq!(
        sender.greeted(Ok(ControlMessage::Cancel)),
        Err(SendError::Pair(PairError::Not("hello")))
    );
}

#[test]
fn each_failure_of_a_send_has_its_error() {
    let missing = worddrop::transfer::send::SendError::MissingSource { path: "x".to_string() };
    let mut flow = SendFlow::new();
    assert_eq!(flow.prepared(Err(missing.clone())), Err(SendError::Prepare(missing)));
    assert_eq!(flow.phase(), SendPhase::Ended);

    let allocating = || {
        let mut flow = SendFlow::new();
        flow.prepared(Ok(prepared())).expect("prepared");
        flow
    };
    assert_eq!(
        allocating().allocated(Err(RvError::Timeout), &mut rng()),
        Err(SendError::Rv(RvError::Timeout))
    );
    assert_eq!(
        allocating().allocated(Ok(Allocation { nameplate: 0, expires_at: 0 }), &mut rng()),
        Err(SendError::Word(WordCodeError::InvalidNameplate("0".to_string())))
    );

    let publishing = || {
        let mut flow = allocating();
        flow.allocated(Ok(Allocation { nameplate: 9, expires_at: 0 }), &mut rng()).expect("code");
        flow
    };
    let mut flow = publishing();
    let lost = RvError::Mqtt { detail: "connection lost".to_string() };
    assert_eq!(flow.published(Err(lost.clone())), Err(SendError::Rv(lost)));
    assert_eq!(flow.phase(), SendPhase::Ended);

    let waiting = || {
        let mut flow = publishing();
        flow.published(Ok(())).expect("published");
        flow
    };
    assert!(matches!(
        waiting().dialed_in(DialIn::TimedOut),
        Err(SendError::Hung("receiver to dial in with the pairing code"))
    ));
    assert!(matches!(waiting().dialed_in(DialIn::Closed), Err(SendError::AcceptorClosed)));
    let mut flow = waiting();
    assert!(flow.dialed_in(DialIn::Connected).is_ok());
    assert_eq!(
        flow.stream_opened(StreamOpen::TimedOut),
        Err(SendError::Hung("receiver to open the control stream"))
    );
    let mut flow = waiting();
    assert!(flow.dialed_in(DialIn::Connected).is_ok());
    assert_eq!(
        flow.stream_opened(StreamOpen::Failed("reset".to_string())),
        Err(SendError::Connection("reset".to_string()))
    );

    let (mut flow, _) = send_until_greeting(9);
    assert_eq!(
        flow.greeted(Err(SessionError::UnexpectedEof)),
        Err(SendError::Pair(PairError::Control(SessionError::UnexpectedEof)))
    );
    let (mut flow, _) = send_until_greeting(9);
    assert_eq!(
        flow.not_sent(SessionError::Io("reset".to_string())).to_string(),
        "control error: io error: reset"
    );
    let (mut flow, _) = send_until_greeting(9);
    flow.greeted(Ok(ControlMessage::Hello { version: 1 })).expect("hello");
    assert_eq!(
        flow.paired(Err(PairError::Wire(WireError::MissingLengthPrefix))),
        Err(SendError::Pair(PairError::Wire(WireError::MissingLengthPrefix)))
    );
}

#[test]
fn each_failure_of_a_receive_flow_has_its_error() {
    let fresh = || ReceiveFlow::new(Some("dl".to_string()), None);
    let refused = |step: Result<RecvStep, RecvError>| match step {
        Err(error) => error,
        other => panic!("{other:?}"),
    };
    assert_eq!(refused(fresh().code_entered(CodeInput::Missing)), RecvError::NoCode);
    assert_eq!(
        refused(fresh().code_entered(CodeInput::Given(" \n".to_string()))),
        RecvError::NoCode
    );
    assert_eq!(
        refused(fresh().code_entered(CodeInput::Given("7".to_string()))),
        RecvError::Word(WordCodeError::MissingHyphen)
    );
    assert!(matches!(
        fresh().code_entered(CodeInput::Interrupted),
        Ok(RecvStep::End { last_words: None, outcome: ReceiveOutcome::Cancelled })
    ));

    let claiming = || {
        let mut flow = fresh();
        assert!(flow.code_entered(CodeInput::Given("7-a".to_string())).is_ok());
        flow
    };
    assert_eq!(
        refused(claiming().claimed(Claimed::Failed(RvError::Timeout))),
        RecvError::Rv(RvError::Timeout)
    );
    assert!(matches!(
        claiming().claimed(Claimed::Interrupted),
        Ok(RecvStep::End { last_words: None, .. })
    ));
    let mut flow = claiming();
    assert!(flow.claimed(Claimed::Ticket("junk".to_string())).is_ok());
    assert_eq!(flow.ticket_read(false), Err(RecvError::Ticket("junk".to_string())));

    let starting = || {
        let mut flow = claiming();
        assert!(flow.claimed(Claimed::Ticket("t".to_string())).is_ok());
        flow.ticket_read(true).expect("ticket");
        flow
    };
    let broken = worddrop::transfer::engine::Error::DataDirNotDirectory { path: "p".to_string() };
    assert_eq!(
        starting().engine_started(Err(broken.clone()), &RelayMode::Default),
        Err(RecvError::Engine(broken))
    );
    let mut flow = starting();
    flow.engine_started(Ok(()), &RelayMode::Default).expect("engine");
    assert_eq!(flow.relay_awaited(false), Err(RecvError::RelayHung));

    let resolving = || {
        let mut flow = starting();
        flow.engine_started(Ok(()), &RelayMode::Disabled).expect("engine");
        flow
    };
    assert_eq!(
        resolving().output_resolved(Err("io".to_string())),
        Err(RecvError::Receive(ReceiveError::TargetDirResolve {
            path: "dl".to_string(),
            source: "io".to_string()
        }))
    );
    let dialing = || {
        let mut flow = resolving();
        flow.output_resolved(Ok("/dl".to_string())).expect("output");
        flow
    };
    assert_eq!(
        refused(dialing().dialed(DialOut::TimedOut)),
        RecvError::Hung("connect to sender")
    );
    assert_eq!(
        refused(dialing().dialed(DialOut::Refused("r".to_string()))),
        RecvError::Pair(PairError::Io("r".to_string()))
    );
    assert!(matches!(
        dialing().dialed(DialOut::Interrupted),
        Ok(RecvStep::End { last_words: None, .. })
    ));
    let mut flow = dialing();
    assert!(flow.dialed(DialOut::Connected).is_ok());
    assert_eq!(
        refused(flow.stream_opened(Err("reset".to_string()))),
        RecvError::Connection("reset".to_string())
    );

    let (mut flow, _) = receive_until_greeting("7-a", None, &RelayMode::Disabled);
    assert_eq!(
        flow.greeted(Err(SessionError::UnexpectedEof)),
        Err(RecvError::Control(SessionError::UnexpectedEof))
    );
    let (mut flow, _) = receive_until_greeting("7-a", None, &RelayMode::Disabled);
    flow.greeted(Ok(ControlMessage::Accept)).expect("any first message will do");
    assert!(matches!(
        flow.paired(Paired::Interrupted),
        Ok(RecvStep::End { last_words: Some(ControlMessage::Cancel), .. })
    ));
    let (_, mut flow, _) = paired_flows(None);
    assert_eq!(
        refused(flow.offered(Offered::Failed(SessionError::UnexpectedEof))),
        RecvError::Control(SessionError::UnexpectedEof)
    );
    let (_, mut flow, _) = paired_flows(None);
    assert!(matches!(
        flow.offered(Offered::Interrupted),
        Ok(RecvStep::End { last_words: Some(ControlMessage::Cancel), .. })
    ));
    let (_, mut flow, offer) = paired_flows(None);
    assert!(flow.offered(Offered::Message(offer)).is_ok());
    assert!(matches!(
        flow.decided(Answer::Interrupted),
        Ok(RecvStep::End { last_words: Some(ControlMessage::Cancel), .. })
    ));
    let (_, mut flow, offer) = paired_flows(Some(true));
    assert!(flow.offered(Offered::Message(offer)).is_ok());
    assert!(flow.decided(Answer::Nothing).is_ok());
    assert_eq!(
        flow.accept_sent(Err(SessionError::UnexpectedEof)),
        Err(RecvError::Control(SessionError::UnexpectedEof))
    );
    assert_eq!(flow.phase(), RecvPhase::Ended);
    let (_, mut flow, _) = paired_flows(None);
    assert_eq!(
        flow.not_sent(SessionError::UnexpectedEof),
        RecvError::Control(SessionError::UnexpectedEof)
    );
}

#[test]
fn the_shown_code_names_the_nameplate_and_the_words() {
    let (flow, code) = send_until_greeting(42);
    let read = WordCode::validate(&code).expect("a valid code");
    assert_eq!(read.nameplate(), 42);
    assert_eq!(read.password(), flow.words());
    assert_eq!(read_code(&format!("\t{code} ")), Ok((42, flow.words().to_string())));
}

#[test]
fn only_y_and_yes_mean_yes() {
    for yes in ["y", "Y\n", " yes ", "YES", "yEs\r\n"] {
        assert!(is_yes(yes), "{yes:?}");
        assert!(resumes(Some(yes)));
    }
    for no in ["", "n", "yess", "ye", "y y", "да"] {
        assert!(!is_yes(no), "{no:?}");
        assert!(!resumes(Some(no)));
    }
    assert!(!resumes(None));
}

#[test]
fn offers_are_shown_with_their_sizes() {
    let files = vec![
        FileMeta { name: "a.txt".to_string(), size: 512, hash: String::new() },
        FileMeta { name: "b/c".to_string(), size: 2048, hash: String::new() },
    ];
    assert_eq!(
        display_offer(&files, 2560),
        "发送方发来了 2 个文件（2.5 KiB） / Sender offers 2 files (2.5 KiB total):\n  \
         a.txt (512 B)\n  b/c (2.0 KiB)\n"
    );
    assert_eq!(accept_prompt(), "接受传输? [y/N] (60s 超时自动拒绝) ");
    assert_eq!(describe_files(&prepared().files)[1].hash, "cd".repeat(32));
}

#[test]
fn progress_stays_within_the_total() {
    assert_eq!(progress_position(0, 0, 10), 0);
    assert_eq!(progress_position(7, 3, 10), 4);
    assert_eq!(progress_position(3, 7, 10), 0);
    assert_eq!(progress_position(u64::MAX, 0, 10), 10);
}

#[test]
fn receive_errors_are_bilingual() {
    assert_eq!(
        RecvError::Hung("connect to sender").to_string(),
        "等待 connect to sender 超时 / timed out waiting for connect to sender"
    );
    assert_eq!(RecvError::NoCode.to_string(), "未提供配对码 / no pairing code provided");
    assert!(RecvError::Rv(RvError::Timeout).to_string().contains("rendezvous error: "));
    assert!(RecvError::Connection("x".to_string()).to_string().ends_with("connection error: x"));
    assert!(RecvError::Receive(ReceiveError::ConnectTimeout)
        .to_string()
        .contains("receive error: "));
}
