//! The send command's flow: prepare the files, get a nameplate, show the code, pair with whoever
//! dials in with the same words, offer the files, and see the transfer through.
//!
//! [`SendFlow`] holds what the flow knows and decides what comes next; whoever drives it carries
//! out the step that [`SendFlow::phase`] names and reports what happened.
use vstd::prelude::*;

use crate::pairing::handshake::{hex_encode, hex_text};
use crate::pairing::wordcode::{
    fault_text, nameplate_in_range, CodeFault, CodeView, WordCode, WordCodeError,
};
use crate::rendezvous_client::{rv_error_text, Allocation, RvError};
use crate::session::control::{
    message_shown, session_error_text, ControlMessage, FileMeta, SessionError, PROTOCOL_VERSION,
};
use crate::session::state::{
    transition_error_text, SessionPhase, Transition, TransitionError,
};
use crate::session::Session;
use crate::text::{decimal, decimal_string};
use crate::transfer::send::{send_fault_text, PreparedFile, PreparedTransfer};
use crate::wire::{answer_hello, pair_error_text, PairError};

verus! {

broadcast use vstd::string::group_string_axioms;

/// How the send flow ended.
#[derive(Debug, Clone, PartialEq, Eq)]
pub enum SendOutcome {
    /// The receiver accepted and reported the transfer result.
    Completed { bytes: u64, files: u32, skipped_bytes: u64, skipped_files: u32 },
    /// The receiver refused the offer.
    Declined { reason: String },
    /// Either side cancelled.
    Cancelled,
}

/// Errors from the send flow.
#[derive(Debug, Clone, PartialEq, Eq)]
pub enum SendError {
    /// Preparing the transfer failed.
    Prepare(crate::transfer::send::SendError),
    /// Talking to the rendezvous failed.
    Rv(RvError),
    /// Word-code generation failed.
    Word(WordCodeError),
    /// Pairing control exchange failed.
    Pair(PairError),
    /// Control message send failed.
    Control(SessionError),
    /// Illegal session transition.
    Transition(TransitionError),
    /// Opening the control stream failed.
    Connection(String),
    /// Nobody can dial in any more.
    AcceptorClosed,
    /// A message of the wrong kind arrived.
    UnexpectedMessage(ControlMessage),
    /// The receiver's result disagrees with what was prepared.
    ResultMismatch { expected_bytes: u64, expected_files: u32, got_bytes: u64, got_files: u32 },
    /// Waiting for something timed out.
    Hung(&'static str),
}

/// The sentence that reports an error.
pub open spec fn send_error_text(error: SendError) -> Seq<char> {
    match error {
        SendError::Prepare(e) => send_fault_text(e@),
        SendError::Rv(e) => "rendezvous error: "@ + rv_error_text(e),
        SendError::Word(e) => "word-code error: "@ + fault_text(e@),
        SendError::Pair(e) => "pairing error: "@ + pair_error_text(e),
        SendError::Control(e) => "control error: "@ + session_error_text(e),
        SendError::Transition(e) => "session error: "@ + transition_error_text(e),
        SendError::Connection(reason) => "control stream error: "@ + reason@,
        SendError::AcceptorClosed => "control acceptor closed before any receiver dialed in"@,
        SendError::UnexpectedMessage(message) => "unexpected control message: "@ + message_shown(
            message,
        ),
        SendError::ResultMismatch { expected_bytes, expected_files, got_bytes, got_files } =>
            "receiver result mismatch: expected "@ + decimal(expected_bytes as nat) + " bytes / "@
                + decimal(expected_files as nat) + " files, got "@ + decimal(got_bytes as nat)
                + " / "@ + decimal(got_files as nat),
        SendError::Hung(what) => "timed out waiting for "@ + what@,
    }
}

impl SendError {
    /// The sentence that reports the error.
    pub fn to_string(&self) -> (text: String)
        ensures
            text@ == send_error_text(*self),
    {
        match self {
            SendError::Prepare(e) => e.to_string(),
            SendError::Rv(e) => "rendezvous error: ".to_owned().concat(e.to_string().as_str()),
            SendError::Word(e) => "word-code error: ".to_owned().concat(e.to_string().as_str()),
            SendError::Pair(e) => "pairing error: ".to_owned().concat(e.to_string().as_str()),
            SendError::Control(e) => "control error: ".to_owned().concat(e.to_string().as_str()),
            SendError::Transition(e) => {
                "session error: ".to_owned().concat(e.to_string().as_str())
            },
            SendError::Connection(reason) => {
                "control stream error: ".to_owned().concat(reason.as_str())
            },
            SendError::AcceptorClosed => {
                "control acceptor closed before any receiver dialed in".to_owned()
            },
            SendError::UnexpectedMessage(message) => {
                "unexpected control message: ".to_owned().concat(message.shown().as_str())
            },
            SendError::ResultMismatch { expected_bytes, expected_files, got_bytes, got_files } => {
                "receiver result mismatch: expected ".to_owned().concat(
                    decimal_string(*expected_bytes).as_str(),
                ).concat(" bytes / ").concat(
                    decimal_string(*expected_files as u64).as_str(),
                ).concat(" files, got ").concat(decimal_string(*got_bytes).as_str()).concat(
                    " / ",
                ).concat(decimal_string(*got_files as u64).as_str())
            },
            SendError::Hung(what) => "timed out waiting for ".to_owned().concat(what),
        }
    }
}

/// Whether a receiver's result accounts for the prepared totals: what was skipped counts as
/// delivered.
pub open spec fn accounts_for(
    bytes: u64,
    files: u32,
    skipped_bytes: u64,
    skipped_files: u32,
    total: u64,
    file_count: u32,
) -> bool {
    bytes + skipped_bytes == total && files + skipped_files == file_count
}

/// Whether a receiver's result accounts for the prepared totals. Skipped files, which the receiver
/// had already, count as delivered, so that sending a collection again reconciles.
pub fn result_matches(
    bytes: u64,
    files: u32,
    skipped_bytes: u64,
    skipped_files: u32,
    total: u64,
    file_count: u32,
) -> (yes: bool)
    ensures
        yes == accounts_for(bytes, files, skipped_bytes, skipped_files, total, file_count),
{
    bytes.checked_add(skipped_bytes) == Some(total) && files.checked_add(skipped_files) == Some(
        file_count,
    )
}

/// The position of the progress bar: the bytes served since the transfer began, within the total.
pub fn progress_position(served: u64, baseline: u64, total: u64) -> (position: u64)
    ensures
        position == if served <= baseline {
            0
        } else if served - baseline <= total {
            served - baseline
        } else {
            total as int
        },
        position <= total,
{
    let since: u64 = served.saturating_sub(baseline);
    if since <= total {
        since
    } else {
        total
    }
}

/// The step that a send is at.
#[derive(Debug, Clone, Copy, PartialEq, Eq, Structural)]
pub enum SendPhase {
    /// Prepare the files.
    Prepare,
    /// Allocate a nameplate for the ticket.
    Allocate,
    /// Leave the ticket where the receiver finds it with the code.
    Publish,
    /// Show the code and wait for a receiver to dial in.
    AwaitReceiver,
    /// Accept the receiver's control stream.
    AcceptStream,
    /// Read the receiver's hello.
    Greet,
    /// Run the pairing exchange.
    Pair,
    /// Wait for the answer to the offer.
    AwaitAnswer,
    /// Wait for the result of the transfer.
    Transfer,
    /// The flow is over.
    Ended,
}

/// Whether the files of an offer are the prepared ones: names, sizes and hashes in hex.
pub open spec fn describes(files: Seq<FileMeta>, prepared: Seq<PreparedFile>) -> bool {
    &&& files.len() == prepared.len()
    &&& forall|i: int|
        0 <= i < files.len() ==> {
            &&& (#[trigger] files[i]).name@ == prepared[i].name@
            &&& files[i].size == prepared[i].size
            &&& files[i].hash@ == hex_text(prepared[i].hash@)
        }
}

/// The metadata of prepared files.
pub fn describe_files(prepared: &Vec<PreparedFile>) -> (files: Vec<FileMeta>)
    ensures
        describes(files@, prepared@),
{
    let mut files: Vec<FileMeta> = Vec::new();
    let mut i: usize = 0;
    while i < prepared.len()
        invariant
            i <= prepared@.len(),
            describes(files@, prepared@.take(i as int)),
        decreases prepared@.len() - i,
    {
        let file = &prepared[i];
        files.push(
            FileMeta {
                name: file.name.clone(),
                size: file.size,
                hash: hex_encode(file.hash.as_slice()),
            },
        );
        assert forall|k: int| 0 <= k < files@.len() implies {
            &&& (#[trigger] files@[k]).name@ == prepared@.take(i + 1)[k].name@
            &&& files@[k].size == prepared@.take(i + 1)[k].size
            &&& files@[k].hash@ == hex_text(prepared@.take(i + 1)[k].hash@)
        } by {
            if k < i {
                assert(prepared@.take(i as int)[k] == prepared@.take(i + 1)[k]);
            }
        }
        i += 1;
    }
    assert(prepared@.take(i as int) =~= prepared@);
    files
}

/// How waiting for a receiver to dial in ended.
#[derive(Debug, Clone, Copy, PartialEq, Eq, Structural)]
pub enum DialIn {
    Interrupted,
    TimedOut,
    Closed,
    Connected,
}

/// How waiting for the control stream ended.
#[derive(Debug)]
pub enum StreamOpen {
    TimedOut,
    Failed(String),
    Opened,
}

/// How waiting for a control message ended.
#[derive(Debug)]
pub enum Awaited {
    Interrupted,
    Message(ControlMessage),
    Failed(PairError),
}

/// What the flow does next.
#[derive(Debug)]
pub enum SendStep {
    /// Go on with the next step.
    Continue,
    /// The flow is over; the message, if there is one, goes out first, and it does not matter
    /// whether it arrives.
    End { last_words: Option<ControlMessage>, outcome: SendOutcome },
}

/// Whether the flow goes on.
pub open spec fn continues(step: Result<SendStep, SendError>) -> bool {
    step matches Ok(SendStep::Continue)
}

/// Whether the flow ends with an outcome and without another message.
pub open spec fn ends(step: Result<SendStep, SendError>, outcome: SendOutcome) -> bool {
    step matches Ok(SendStep::End { last_words: None, outcome: o }) && o == outcome
}

/// Whether the flow ends cancelled after telling the peer.
pub open spec fn ends_telling(step: Result<SendStep, SendError>) -> bool {
    step matches Ok(SendStep::End { last_words: Some(ControlMessage::Cancel), outcome }) && outcome
        == SendOutcome::Cancelled
}

/// A send in progress.
pub struct SendFlow {
    session: Session,
    phase: SendPhase,
    ticket: String,
    files: Vec<FileMeta>,
    total: u64,
    file_count: u32,
    words: String,
}

impl SendFlow {
    /// The step that the flow is at.
    pub closed spec fn at(self) -> SendPhase {
        self.phase
    }

    /// The phase of the session.
    pub closed spec fn session_phase(self) -> SessionPhase {
        self.session.at()
    }

    /// Whether cancellation has been signalled to the session's watchers.
    pub closed spec fn signalled(self) -> bool {
        self.session.signalled()
    }

    /// The bytes that are offered.
    pub closed spec fn total_bytes(self) -> u64 {
        self.total
    }

    /// The number of files that are offered.
    pub closed spec fn count(self) -> u32 {
        self.file_count
    }

    /// The files that are offered.
    pub closed spec fn offered(self) -> Seq<FileMeta> {
        self.files@
    }

    /// The ticket that is left at the rendezvous.
    pub closed spec fn left_ticket(self) -> Seq<char> {
        self.ticket@
    }

    /// The words of the code.
    pub closed spec fn secret(self) -> Seq<char> {
        self.words@
    }

    /// Nothing that was prepared has changed.
    pub open spec fn same_files(self, other: SendFlow) -> bool {
        &&& self.total_bytes() == other.total_bytes()
        &&& self.count() == other.count()
        &&& self.offered() == other.offered()
        &&& self.left_ticket() == other.left_ticket()
        &&& self.secret() == other.secret()
    }

    /// The session is as far as the flow is: nothing is offered before the pairing is confirmed,
    /// and nothing is transferred before the offer is accepted.
    pub open spec fn wf(self) -> bool {
        &&& self.signalled() ==> self.session_phase() == SessionPhase::Cancelled
        &&& match self.at() {
            SendPhase::AwaitAnswer => self.session_phase() == SessionPhase::Paired,
            SendPhase::Transfer => self.session_phase() == SessionPhase::Transferring,
            SendPhase::Ended => true,
            _ => self.session_phase() == SessionPhase::PendingPair,
        }
    }

    /// A flow that has just begun.
    pub fn new() -> (flow: Self)
        ensures
            flow.wf(),
            flow.at() == SendPhase::Prepare,
            flow.session_phase() == SessionPhase::PendingPair,
            !flow.signalled(),
            flow.offered() == Seq::<FileMeta>::empty(),
            flow.total_bytes() == 0,
            flow.count() == 0,
            flow.left_ticket() == Seq::<char>::empty(),
            flow.secret() == Seq::<char>::empty(),
    {
        let mut session = Session::new();
        let _ = session.transition(Transition::StartPairing);
        SendFlow {
            session,
            phase: SendPhase::Prepare,
            ticket: String::new(),
            files: Vec::new(),
            total: 0,
            file_count: 0,
            words: String::new(),
        }
    }

    /// The step to carry out.
    pub fn phase(&self) -> (phase: SendPhase)
        ensures
            phase == self.at(),
    {
        self.phase
    }

    /// The ticket to leave at the rendezvous.
    pub fn ticket(&self) -> (ticket: &str)
        ensures
            ticket@ == self.left_ticket(),
    {
        self.ticket.as_str()
    }

    /// The words of the code, for the pairing exchange alone.
    pub fn words(&self) -> (words: &str)
        ensures
            words@ == self.secret(),
    {
        self.words.as_str()
    }

    /// The bytes that are offered.
    pub fn total(&self) -> (total: u64)
        ensures
            total == self.total_bytes(),
    {
        self.total
    }

    /// The files have been prepared, or not.
    pub fn prepared(
        &mut self,
        outcome: Result<PreparedTransfer, crate::transfer::send::SendError>,
    ) -> (step: Result<(), SendError>)
        requires
            old(self).wf(),
            old(self).at() == SendPhase::Prepare,
        ensures
            final(self).wf(),
            final(self).session_phase() == old(self).session_phase(),
            match outcome {
                Ok(prepared) => {
                    &&& step is Ok
                    &&& final(self).at() == SendPhase::Allocate
                    &&& describes(final(self).offered(), prepared.files@)
                    &&& final(self).total_bytes() == prepared.total_bytes
                    &&& final(self).count() == prepared.files@.len() as u32
                    &&& final(self).left_ticket() == prepared.ticket@
                    &&& final(self).secret() == old(self).secret()
                },
                Err(error) => {
                    &&& step == Err::<(), _>(SendError::Prepare(error))
                    &&& final(self).same_files(*old(self))
                    &&& final(self).at() == SendPhase::Ended
                },
            },
    {
        match outcome {
            Ok(prepared) => {
                self.files = describe_files(&prepared.files);
                self.total = prepared.total_bytes;
                self.file_count = #[verifier::truncate] (prepared.files.len() as u32);
                self.ticket = prepared.ticket;
                self.phase = SendPhase::Allocate;
                Ok(())
            },
            Err(error) => {
                self.phase = SendPhase::Ended;
                Err(SendError::Prepare(error))
            },
        }
    }

    /// A nameplate has been allocated, or not. Returns the code to show.
    pub fn allocated(
        &mut self,
        outcome: Result<Allocation, RvError>,
        rng: &mut rand::rngs::StdRng,
    ) -> (code: Result<String, SendError>)
        requires
            old(self).wf(),
            old(self).at() == SendPhase::Allocate,
        ensures
            final(self).wf(),
            final(self).session_phase() == old(self).session_phase(),
            final(self).offered() == old(self).offered(),
            final(self).total_bytes() == old(self).total_bytes(),
            final(self).count() == old(self).count(),
            final(self).left_ticket() == old(self).left_ticket(),
            match (outcome, code) {
                (Ok(allocation), Ok(text)) => {
                    &&& final(self).at() == SendPhase::Publish
                    &&& exists|code: CodeView|
                        {
                            &&& #[trigger] code.valid()
                            &&& code.nameplate == allocation.nameplate
                            &&& text@ == code.text()
                            &&& final(self).secret() == code.password()
                        }
                },
                (Ok(allocation), Err(SendError::Word(error))) => {
                    &&& !nameplate_in_range(allocation.nameplate as nat)
                    &&& error@ == CodeFault::InvalidNameplate(decimal(allocation.nameplate as nat))
                    &&& final(self).at() == SendPhase::Ended
                },
                (Err(error), Err(SendError::Rv(e))) => e == error && final(self).at()
                    == SendPhase::Ended,
                _ => false,
            },
            (outcome matches Ok(allocation) && nameplate_in_range(allocation.nameplate as nat))
                ==> code is Ok,
            code is Err ==> *final(rng) == *old(rng) && final(self).secret() == old(self).secret(),
    {
        match outcome {
            Ok(allocation) => match WordCode::generate(allocation.nameplate, rng) {
                Ok(code) => {
                    self.words = code.password();
                    self.phase = SendPhase::Publish;
                    assert(code@.valid());
                    Ok(code.to_string())
                },
                Err(error) => {
                    self.phase = SendPhase::Ended;
                    Err(SendError::Word(error))
                },
            },
            Err(error) => {
                self.phase = SendPhase::Ended;
                Err(SendError::Rv(error))
            },
        }
    }

    /// The ticket has been left for the receiver, or not. Over HTTP there is nothing to leave, since
    /// the allocation has stored the ticket.
    pub fn published(&mut self, outcome: Result<(), RvError>) -> (step: Result<(), SendError>)
        requires
            old(self).wf(),
            old(self).at() == SendPhase::Publish,
        ensures
            final(self).wf(),
            final(self).same_files(*old(self)),
            final(self).session_phase() == old(self).session_phase(),
            match outcome {
                Ok(()) => step is Ok && final(self).at() == SendPhase::AwaitReceiver,
                Err(error) => step == Err::<(), _>(SendError::Rv(error)) && final(self).at()
                    == SendPhase::Ended,
            },
    {
        match outcome {
            Ok(()) => {
                self.phase = SendPhase::AwaitReceiver;
                Ok(())
            },
            Err(error) => {
                self.phase = SendPhase::Ended;
                Err(SendError::Rv(error))
            },
        }
    }

    /// A receiver has dialed in, or waiting for it has ended otherwise.
    pub fn dialed_in(&mut self, outcome: DialIn) -> (step: Result<SendStep, SendError>)
        requires
            old(self).wf(),
            old(self).at() == SendPhase::AwaitReceiver,
        ensures
            final(self).wf(),
            final(self).same_files(*old(self)),
            final(self).session_phase() == old(self).session_phase(),
            final(self).at() == if outcome == DialIn::Connected {
                SendPhase::AcceptStream
            } else {
                SendPhase::Ended
            },
            match outcome {
                DialIn::Connected => continues(step),
                DialIn::Interrupted => ends(step, SendOutcome::Cancelled),
                DialIn::TimedOut => step matches Err(SendError::Hung(what)) && what@
                    == "receiver to dial in with the pairing code"@,
                DialIn::Closed => step matches Err(SendError::AcceptorClosed),
            },
    {
        match outcome {
            DialIn::Connected => {
                self.phase = SendPhase::AcceptStream;
                Ok(SendStep::Continue)
            },
            DialIn::Interrupted => {
                self.phase = SendPhase::Ended;
                Ok(SendStep::End { last_words: None, outcome: SendOutcome::Cancelled })
            },
            DialIn::TimedOut => {
                self.phase = SendPhase::Ended;
                Err(SendError::Hung("receiver to dial in with the pairing code"))
            },
            DialIn::Closed => {
                self.phase = SendPhase::Ended;
                Err(SendError::AcceptorClosed)
            },
        }
    }

    /// The receiver has opened the control stream, or not.
    pub fn stream_opened(&mut self, outcome: StreamOpen) -> (step: Result<(), SendError>)
        requires
            old(self).wf(),
            old(self).at() == SendPhase::AcceptStream,
        ensures
            final(self).wf(),
            final(self).same_files(*old(self)),
            final(self).session_phase() == old(self).session_phase(),
            match outcome {
                StreamOpen::Opened => step is Ok && final(self).at() == SendPhase::Greet,
                StreamOpen::TimedOut => {
                    &&& step matches Err(SendError::Hung(what))
                    &&& what@ == "receiver to open the control stream"@
                    &&& final(self).at() == SendPhase::Ended
                },
                StreamOpen::Failed(reason) => step == Err::<(), _>(SendError::Connection(reason))
                    && final(self).at() == SendPhase::Ended,
            },
    {
        match outcome {
            StreamOpen::Opened => {
                self.phase = SendPhase::Greet;
                Ok(())
            },
            StreamOpen::TimedOut => {
                self.phase = SendPhase::Ended;
                Err(SendError::Hung("receiver to open the control stream"))
            },
            StreamOpen::Failed(reason) => {
                self.phase = SendPhase::Ended;
                Err(SendError::Connection(reason))
            },
        }
    }

    /// The first control message has come, or not. Returns the hello to answer with.
    pub fn greeted(&mut self, outcome: Result<ControlMessage, SessionError>) -> (answer: Result<
        ControlMessage,
        SendError,
    >)
        requires
            old(self).wf(),
            old(self).at() == SendPhase::Greet,
        ensures
            final(self).wf(),
            final(self).same_files(*old(self)),
            final(self).session_phase() == old(self).session_phase(),
            match outcome {
                Ok(ControlMessage::Hello { .. }) => answer == Ok::<_, SendError>(
                    (ControlMessage::Hello { version: PROTOCOL_VERSION }),
                ) && final(self).at() == SendPhase::Pair,
                Ok(_) => {
                    &&& answer matches Err(SendError::Pair(PairError::Not(kind)))
                    &&& kind@ == "hello"@
                    &&& final(self).at() == SendPhase::Ended
                },
                Err(error) => answer == Err::<ControlMessage, _>(
                    SendError::Pair(PairError::Control(error)),
                ) && final(self).at() == SendPhase::Ended,
            },
    {
        match outcome {
            Ok(message) => match answer_hello(message) {
                Ok(answer) => {
                    self.phase = SendPhase::Pair;
                    Ok(answer)
                },
                Err(error) => {
                    self.phase = SendPhase::Ended;
                    Err(SendError::Pair(error))
                },
            },
            Err(error) => {
                self.phase = SendPhase::Ended;
                Err(SendError::Pair(PairError::Control(error)))
            },
        }
    }

    /// The pairing exchange has ended. Returns the offer to send, which takes the list of files
    /// with it.
    pub fn paired(&mut self, outcome: Result<(), PairError>) -> (offer: Result<
        ControlMessage,
        SendError,
    >)
        requires
            old(self).wf(),
            old(self).at() == SendPhase::Pair,
        ensures
            final(self).wf(),
            final(self).total_bytes() == old(self).total_bytes(),
            final(self).count() == old(self).count(),
            final(self).left_ticket() == old(self).left_ticket(),
            final(self).secret() == old(self).secret(),
            match outcome {
                Ok(()) => {
                    &&& offer matches Ok(ControlMessage::Offer { files, total_bytes })
                    &&& files@ == old(self).offered()
                    &&& total_bytes == old(self).total_bytes()
                    &&& final(self).at() == SendPhase::AwaitAnswer
                    &&& final(self).session_phase() == SessionPhase::Paired
                    &&& final(self).offered() == Seq::<FileMeta>::empty()
                },
                Err(error) => {
                    &&& offer == Err::<ControlMessage, _>(SendError::Pair(error))
                    &&& final(self).at() == SendPhase::Ended
                    &&& final(self).session_phase() == SessionPhase::PendingPair
                    &&& final(self).offered() == old(self).offered()
                },
            },
    {
        match outcome {
            Ok(()) => match self.session.transition(Transition::PairConfirmed) {
                Ok(_) => {
                    self.phase = SendPhase::AwaitAnswer;
                    let mut files: Vec<FileMeta> = Vec::new();
                    core::mem::swap(&mut files, &mut self.files);
                    Ok(ControlMessage::Offer { files, total_bytes: self.total })
                },
                Err(error) => Err(SendError::Transition(error)),
            },
            Err(error) => {
                self.phase = SendPhase::Ended;
                Err(SendError::Pair(error))
            },
        }
    }

    /// A control message could not be sent: the flow is over, and the session stays as it is.
    pub fn not_sent(&mut self, error: SessionError) -> (fault: SendError)
        requires
            old(self).wf(),
        ensures
            final(self).wf(),
            final(self).at() == SendPhase::Ended,
            final(self).session_phase() == old(self).session_phase(),
            final(self).same_files(*old(self)),
            fault == SendError::Control(error),
    {
        self.phase = SendPhase::Ended;
        SendError::Control(error)
    }

    /// Cancels the session and ends the flow.
    fn cancelled(&mut self, last_words: Option<ControlMessage>) -> (step: Result<
        SendStep,
        SendError,
    >)
        requires
            !old(self).session_phase().terminal(),
        ensures
            final(self).at() == SendPhase::Ended,
            final(self).session_phase() == SessionPhase::Cancelled,
            final(self).signalled(),
            final(self).same_files(*old(self)),
            step matches Ok(SendStep::End { last_words: w, outcome }) && w == last_words && outcome
                == SendOutcome::Cancelled,
    {
        self.phase = SendPhase::Ended;
        match self.session.cancel() {
            Ok(_) => Ok(SendStep::End { last_words, outcome: SendOutcome::Cancelled }),
            Err(error) => Err(SendError::Transition(error)),
        }
    }

    /// The answer to the offer has come, or waiting for it has ended otherwise.
    pub fn answered(&mut self, outcome: Awaited) -> (step: Result<SendStep, SendError>)
        requires
            old(self).wf(),
            old(self).at() == SendPhase::AwaitAnswer,
        ensures
            final(self).wf(),
            final(self).same_files(*old(self)),
            match outcome {
                Awaited::Interrupted => {
                    &&& ends_telling(step)
                    &&& final(self).session_phase() == SessionPhase::Cancelled
                    &&& final(self).signalled()
                    &&& final(self).at() == SendPhase::Ended
                },
                Awaited::Message(ControlMessage::Accept) => {
                    &&& continues(step)
                    &&& final(self).at() == SendPhase::Transfer
                },
                Awaited::Message(ControlMessage::Decline { reason }) => {
                    &&& ends(step, (SendOutcome::Declined { reason }))
                    &&& final(self).session_phase() == SessionPhase::Paired
                    &&& final(self).at() == SendPhase::Ended
                },
                Awaited::Message(ControlMessage::Cancel) => {
                    &&& ends(step, SendOutcome::Cancelled)
                    &&& final(self).session_phase() == SessionPhase::Cancelled
                    &&& final(self).signalled()
                    &&& final(self).at() == SendPhase::Ended
                },
                Awaited::Message(other) => {
                    &&& step == Err::<SendStep, _>(SendError::UnexpectedMessage(other))
                    &&& final(self).session_phase() == SessionPhase::Paired
                    &&& final(self).at() == SendPhase::Ended
                },
                Awaited::Failed(error) => {
                    &&& step == Err::<SendStep, _>(SendError::Pair(error))
                    &&& final(self).session_phase() == SessionPhase::Paired
                    &&& final(self).at() == SendPhase::Ended
                },
            },
    {
        match outcome {
            Awaited::Interrupted => self.cancelled(Some(ControlMessage::Cancel)),
            Awaited::Message(ControlMessage::Accept) => {
                match self.session.transition(Transition::TransferStarted) {
                    Ok(_) => {
                        self.phase = SendPhase::Transfer;
                        Ok(SendStep::Continue)
                    },
                    Err(error) => Err(SendError::Transition(error)),
                }
            },
            Awaited::Message(ControlMessage::Decline { reason }) => {
                self.phase = SendPhase::Ended;
                Ok(SendStep::End { last_words: None, outcome: SendOutcome::Declined { reason } })
            },
            Awaited::Message(ControlMessage::Cancel) => self.cancelled(None),
            Awaited::Message(other) => {
                self.phase = SendPhase::Ended;
                Err(SendError::UnexpectedMessage(other))
            },
            Awaited::Failed(error) => {
                self.phase = SendPhase::Ended;
                Err(SendError::Pair(error))
            },
        }
    }

    /// The result of the transfer has come, or waiting for it has ended otherwise. The result
    /// counts only if it accounts for everything that was offered.
    pub fn transferred(&mut self, outcome: Awaited) -> (step: Result<SendStep, SendError>)
        requires
            old(self).wf(),
            old(self).at() == SendPhase::Transfer,
        ensures
            final(self).wf(),
            final(self).same_files(*old(self)),
            final(self).at() == SendPhase::Ended,
            match outcome {
                Awaited::Interrupted => {
                    &&& ends_telling(step)
                    &&& final(self).session_phase() == SessionPhase::Cancelled
                    &&& final(self).signalled()
                },
                Awaited::Message(
                    ControlMessage::Result { bytes, files, skipped_bytes, skipped_files },
                ) => if accounts_for(
                    bytes,
                    files,
                    skipped_bytes,
                    skipped_files,
                    old(self).total_bytes(),
                    old(self).count(),
                ) {
                    &&& ends(
                        step,
                        (SendOutcome::Completed { bytes, files, skipped_bytes, skipped_files }),
                    )
                    &&& final(self).session_phase() == SessionPhase::Done
                } else {
                    step == Err::<SendStep, _>(
                        (SendError::ResultMismatch {
                            expected_bytes: old(self).total_bytes(),
                            expected_files: old(self).count(),
                            got_bytes: bytes,
                            got_files: files,
                        }),
                    ) && final(self).session_phase() == SessionPhase::Transferring
                },
                Awaited::Message(ControlMessage::Cancel) => {
                    &&& ends(step, SendOutcome::Cancelled)
                    &&& final(self).session_phase() == SessionPhase::Cancelled
                    &&& final(self).signalled()
                },
                Awaited::Message(other) => {
                    &&& step == Err::<SendStep, _>(SendError::UnexpectedMessage(other))
                    &&& final(self).session_phase() == SessionPhase::Transferring
                },
                Awaited::Failed(error) => {
                    &&& step == Err::<SendStep, _>(SendError::Pair(error))
                    &&& final(self).session_phase() == SessionPhase::Transferring
                },
            },
    {
        match outcome {
            Awaited::Interrupted => self.cancelled(Some(ControlMessage::Cancel)),
            Awaited::Message(
                ControlMessage::Result { bytes, files, skipped_bytes, skipped_files },
            ) => {
                self.phase = SendPhase::Ended;
                if !result_matches(
                    bytes,
                    files,
                    skipped_bytes,
                    skipped_files,
                    self.total,
                    self.file_count,
                ) {
                    return Err(
                        SendError::ResultMismatch {
                            expected_bytes: self.total,
                            expected_files: self.file_count,
                            got_bytes: bytes,
                            got_files: files,
                        },
                    );
                }
                match self.session.transition(Transition::Completed) {
                    Ok(_) => Ok(
                        SendStep::End {
                            last_words: None,
                            outcome: SendOutcome::Completed {
                                bytes,
                                files,
                                skipped_bytes,
                                skipped_files,
                            },
                        },
                    ),
                    Err(error) => Err(SendError::Transition(error)),
                }
            },
            Awaited::Message(ControlMessage::Cancel) => self.cancelled(None),
            Awaited::Message(other) => {
                self.phase = SendPhase::Ended;
                Err(SendError::UnexpectedMessage(other))
            },
            Awaited::Failed(error) => {
                self.phase = SendPhase::Ended;
                Err(SendError::Pair(error))
            },
        }
    }
}

} // verus!
