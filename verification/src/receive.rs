//! The receive command's flow: take the code apart, claim the nameplate, dial the sender, pair
//! with the words, decide about the offer, download, and report the result.
//!
//! [`ReceiveFlow`] holds what the flow knows and decides what comes next; whoever drives it
//! carries out the step that [`ReceiveFlow::phase`] names and reports what happened. Only the
//! nameplate goes to the rendezvous; the words serve the pairing alone.
use vstd::prelude::*;

use crate::pairing::wordcode::{
    fault_text, password_ends_in_letters, split_code, written_code_splits, CodeFault, CodeView,
    WordCode, WordCodeError,
};
use crate::relay::RelayMode;
use crate::rendezvous_client::{rv_error_text, RvError};
use crate::send::accounts_for;
use crate::session::control::{
    message_shown, session_error_text, ControlMessage, FileMeta, SessionError, PROTOCOL_VERSION,
};
use crate::session::state::{transition_error_text, SessionPhase, Transition, TransitionError};
use crate::session::Session;
use crate::text::{
    ascii_lowercase, decimal, decimal_digits, decimal_string, lowercase, padding_is_trimmed,
    same_text, trim, trimmed, white_space,
};
use crate::transfer::engine::engine_error_text;
use crate::transfer::receive::{
    collection_size, complete_receive_accounts_for_all_bytes, exported_bytes, exported_count,
    passed_bytes, receive_fault_text, CollectionFile, FileFate, ReceiveError, ReceiveFault,
    TransferResult,
};
use crate::transfer::send::{total_size, PreparedFile};
use crate::ui::{human_bytes, human_text};
use crate::wire::{pair_error_text, PairError};

verus! {

broadcast use vstd::string::group_string_axioms;

/// How long to wait for an answer to a question, in seconds.
pub const PROMPT_TIMEOUT: u64 = 60;

/// How long to wait for the code, in seconds.
pub const CODE_PROMPT_TIMEOUT: u64 = 120;

/// How long to wait for contact with the relay, in seconds.
pub const RELAY_TIMEOUT: u64 = 15;

/// How the receive flow ended.
#[derive(Debug, Clone, PartialEq, Eq)]
pub enum ReceiveOutcome {
    /// Files downloaded and exported.
    Completed { bytes: u64, files: usize, skipped_files: usize },
    /// The user declined the offer.
    Declined,
    /// Either side cancelled.
    Cancelled,
}

/// Errors from the receive flow.
#[derive(Debug, Clone, PartialEq, Eq)]
pub enum RecvError {
    /// Word-code parsing failed.
    Word(WordCodeError),
    /// The rendezvous claim failed.
    Rv(RvError),
    /// The claimed text is no ticket.
    Ticket(String),
    /// Engine construction failed.
    Engine(crate::transfer::engine::Error),
    /// The relay did not become contactable in time.
    RelayHung,
    /// Pairing control exchange failed.
    Pair(PairError),
    /// Sending or reading a control message failed.
    Control(SessionError),
    /// Illegal session transition.
    Transition(TransitionError),
    /// A message of the wrong kind arrived.
    UnexpectedMessage(ControlMessage),
    /// The download or export failed.
    Receive(ReceiveError),
    /// Opening the control stream failed.
    Connection(String),
    /// Waiting for something timed out.
    Hung(&'static str),
    /// No code was entered.
    NoCode,
}

/// The sentence that reports an error, in Chinese and in English.
pub open spec fn recv_error_text(error: RecvError) -> Seq<char> {
    match error {
        RecvError::Word(e) => "配对码格式错误 / word-code error: "@ + fault_text(e@),
        RecvError::Rv(e) => "服务器错误 / rendezvous error: "@ + rv_error_text(e),
        RecvError::Ticket(ticket) => "无效的票据 / invalid ticket: "@ + ticket@,
        RecvError::Engine(e) => "传输引擎错误 / engine error: "@ + engine_error_text(e),
        RecvError::RelayHung => "连接中继服务器超时 / timed out contacting the relay"@,
        RecvError::Pair(e) => "配对失败 / pairing error: "@ + pair_error_text(e),
        RecvError::Control(e) => "控制通道错误 / control error: "@ + session_error_text(e),
        RecvError::Transition(e) => "会话状态错误 / session error: "@ + transition_error_text(e),
        RecvError::UnexpectedMessage(message) => "意外的控制消息 / unexpected control message: "@
            + message_shown(message),
        RecvError::Receive(e) => "接收错误 / receive error: "@ + receive_fault_text(e@),
        RecvError::Connection(reason) => "连接错误 / connection error: "@ + reason@,
        RecvError::Hung(what) => "等待 "@ + what@ + " 超时 / timed out waiting for "@ + what@,
        RecvError::NoCode => "未提供配对码 / no pairing code provided"@,
    }
}

impl RecvError {
    /// The sentence that reports the error.
    pub fn to_string(&self) -> (text: String)
        ensures
            text@ == recv_error_text(*self),
    {
        match self {
            RecvError::Word(e) => {
                "配对码格式错误 / word-code error: ".to_owned().concat(e.to_string().as_str())
            },
            RecvError::Rv(e) => {
                "服务器错误 / rendezvous error: ".to_owned().concat(e.to_string().as_str())
            },
            RecvError::Ticket(ticket) => {
                "无效的票据 / invalid ticket: ".to_owned().concat(ticket.as_str())
            },
            RecvError::Engine(e) => {
                "传输引擎错误 / engine error: ".to_owned().concat(e.to_string().as_str())
            },
            RecvError::RelayHung => "连接中继服务器超时 / timed out contacting the relay".to_owned(),
            RecvError::Pair(e) => {
                "配对失败 / pairing error: ".to_owned().concat(e.to_string().as_str())
            },
            RecvError::Control(e) => {
                "控制通道错误 / control error: ".to_owned().concat(e.to_string().as_str())
            },
            RecvError::Transition(e) => {
                "会话状态错误 / session error: ".to_owned().concat(e.to_string().as_str())
            },
            RecvError::UnexpectedMessage(message) => {
                "意外的控制消息 / unexpected control message: ".to_owned().concat(
                    message.shown().as_str(),
                )
            },
            RecvError::Receive(e) => {
                "接收错误 / receive error: ".to_owned().concat(e.to_string().as_str())
            },
            RecvError::Connection(reason) => {
                "连接错误 / connection error: ".to_owned().concat(reason.as_str())
            },
            RecvError::Hung(what) => {
                "等待 ".to_owned().concat(what).concat(" 超时 / timed out waiting for ").concat(what)
            },
            RecvError::NoCode => "未提供配对码 / no pairing code provided".to_owned(),
        }
    }
}

/// Whether a line answers a question with yes. Everything else means no.
pub open spec fn says_yes(line: Seq<char>) -> bool {
    lowercase(trimmed(line)) == "y"@ || lowercase(trimmed(line)) == "yes"@
}

/// Whether a line answers a question with yes: `y` or `yes`, in any case, with white space around
/// it or not.
pub fn is_yes(line: &str) -> (yes: bool)
    ensures
        yes == says_yes(line@),
        vstd::utf8::is_ascii_chars(trimmed(line@)) ==> yes == (ascii_lowercase(trimmed(line@))
            == "y"@ || ascii_lowercase(trimmed(line@)) == "yes"@),
{
    let answer = trim(line).as_str().to_lowercase();
    same_text(answer.as_str(), "y") || same_text(answer.as_str(), "yes")
}

/// Whether to resume an earlier transfer, given the answer to the question, if one came in time.
/// If not, its record is to be deleted, so that the download starts afresh.
pub fn resumes(answer: Option<&str>) -> (yes: bool)
    ensures
        yes == (answer matches Some(line) && says_yes(line@)),
        answer matches Some(line) ==> (vstd::utf8::is_ascii_chars(trimmed(line@)) ==> yes == (
        ascii_lowercase(trimmed(line@)) == "y"@ || ascii_lowercase(trimmed(line@)) == "yes"@)),
{
    match answer {
        Some(line) => is_yes(line),
        None => false,
    }
}

/// The lines that show the first `n` files of an offer.
pub open spec fn file_lines(files: Seq<FileMeta>, n: int) -> Seq<char>
    decreases n,
{
    if n <= 0 {
        Seq::empty()
    } else {
        file_lines(files, n - 1) + "  "@ + files[n - 1].name@ + " ("@ + human_text(
            files[n - 1].size as int,
        ) + ")\n"@
    }
}

/// The lines that show an offer.
pub open spec fn offer_text(files: Seq<FileMeta>, total_bytes: u64) -> Seq<char> {
    "发送方发来了 "@ + decimal(files.len()) + " 个文件（"@ + human_text(total_bytes as int)
        + "） / Sender offers "@ + decimal(files.len()) + " files ("@ + human_text(
        total_bytes as int,
    ) + " total):\n"@ + file_lines(files, files.len() as int)
}

/// The lines that show an offer: how many files and bytes, and each file's name and size.
pub fn display_offer(files: &Vec<FileMeta>, total_bytes: u64) -> (text: String)
    ensures
        text@ == offer_text(files@, total_bytes),
{
    let count = decimal_string(files.len() as u64);
    let size = human_bytes(total_bytes);
    let mut lines = String::new();
    let mut i: usize = 0;
    while i < files.len()
        invariant
            i <= files@.len(),
            lines@ == file_lines(files@, i as int),
        decreases files@.len() - i,
    {
        lines = lines.concat("  ").concat(files[i].name.as_str()).concat(" (").concat(
            human_bytes(files[i].size).as_str(),
        ).concat(")\n");
        i += 1;
    }
    "发送方发来了 ".to_owned().concat(count.as_str()).concat(" 个文件（").concat(
        size.as_str(),
    ).concat("） / Sender offers ").concat(count.as_str()).concat(" files (").concat(
        size.as_str(),
    ).concat(" total):\n").concat(lines.as_str())
}

/// The question whether to accept the offer.
pub fn accept_prompt() -> (text: String)
    ensures
        text@ == "接受传输? [y/N] ("@ + decimal(PROMPT_TIMEOUT as nat) + "s 超时自动拒绝) "@,
{
    "接受传输? [y/N] (".to_owned().concat(decimal_string(PROMPT_TIMEOUT).as_str()).concat(
        "s 超时自动拒绝) ",
    )
}

/// Whether contact with a relay is waited for.
pub fn awaits_relay(mode: &RelayMode) -> (yes: bool)
    ensures
        yes == !(mode is Disabled),
{
    match mode {
        RelayMode::Disabled => false,
        _ => true,
    }
}

/// Takes a code apart into the nameplate and the words, white space around it aside. An empty
/// code is none.
pub fn read_code(code: &str) -> (parts: Result<(u32, String), RecvError>)
    ensures
        match parts {
            Ok((nameplate, words)) => trimmed(code@).len() > 0 && split_code(trimmed(code@)) == Ok::<
                _,
                CodeFault,
            >((nameplate as nat, words@)),
            Err(RecvError::NoCode) => trimmed(code@).len() == 0,
            Err(RecvError::Word(error)) => trimmed(code@).len() > 0 && split_code(trimmed(code@))
                == Err::<(nat, Seq<char>), _>(error@),
            Err(_) => false,
        },
{
    let code = trim(code);
    if code.as_str().is_empty() {
        return Err(RecvError::NoCode);
    }
    match WordCode::split(code.as_str()) {
        Ok(parts) => Ok(parts),
        Err(error) => Err(RecvError::Word(error)),
    }
}

/// A code that is typed as it was shown, white space around it or not, comes apart into the
/// nameplate that the sender was given and the words that the sender pairs with.
pub proof fn typed_code_gives_the_shown_words(code: CodeView, before: Seq<char>, after: Seq<char>)
    requires
        code.valid(),
        forall|i: int| 0 <= i < before.len() ==> white_space(#[trigger] before[i]),
        forall|i: int| 0 <= i < after.len() ==> white_space(#[trigger] after[i]),
    ensures
        trimmed(before + code.text() + after).len() > 0,
        split_code(trimmed(before + code.text() + after)) == Ok::<_, CodeFault>(
            (code.nameplate, code.password()),
        ),
{
    written_code_splits(code);
    decimal_digits(code.nameplate);
    password_ends_in_letters(code);
    assert(code.text().last() == code.password().last());
    padding_is_trimmed(before, code.text(), after);
}

/// The step that a receive is at.
#[derive(Debug, Clone, Copy, PartialEq, Eq, Structural)]
pub enum RecvPhase {
    /// Get the code.
    Code,
    /// Claim the nameplate.
    Claim,
    /// Read the claimed text as a ticket.
    Ticket,
    /// Start the engine.
    Engine,
    /// Wait for contact with the relay.
    Relay,
    /// Make the output dir absolute.
    Output,
    /// Dial the sender.
    Dial,
    /// Open the control stream.
    OpenStream,
    /// Read the sender's hello.
    Greet,
    /// Run the pairing exchange.
    Pair,
    /// Wait for the offer.
    AwaitOffer,
    /// Ask whether to accept.
    Decide,
    /// Send the acceptance.
    Accept,
    /// Download and export.
    Download,
    /// Wait for the sender to close after a refusal.
    AwaitCloseDeclined,
    /// Wait for the sender to close after the result.
    AwaitCloseDone,
    /// The flow is over.
    Ended,
}

/// The code, or how waiting for it ended.
#[derive(Debug)]
pub enum CodeInput {
    Interrupted,
    /// Standard input ended, failed or was silent for too long.
    Missing,
    Given(String),
}

/// How the claim ended.
#[derive(Debug)]
pub enum Claimed {
    Interrupted,
    Ticket(String),
    Failed(RvError),
}

/// How dialing the sender ended.
#[derive(Debug)]
pub enum DialOut {
    Interrupted,
    TimedOut,
    Refused(String),
    Connected,
}

/// How the pairing exchange ended.
#[derive(Debug)]
pub enum Paired {
    Interrupted,
    Confirmed,
    Failed(PairError),
}

/// The message that came in place of the offer, or how waiting for it ended.
#[derive(Debug)]
pub enum Offered {
    Interrupted,
    Message(ControlMessage),
    Failed(SessionError),
}

/// The answer to the offer, or how waiting for it ended.
#[derive(Debug)]
pub enum Answer {
    Interrupted,
    /// No answer in time, or no standard input.
    Nothing,
    Line(String),
}

/// What the flow does next.
#[derive(Debug)]
pub enum RecvStep {
    /// Go on with the next step.
    Continue,
    /// Send a message, and go on with the next step.
    Send(ControlMessage),
    /// The flow is over; the message, if there is one, goes out first, and it does not matter
    /// whether it arrives.
    End { last_words: Option<ControlMessage>, outcome: ReceiveOutcome },
}

/// Whether the flow goes on without a message.
pub open spec fn goes_on(step: Result<RecvStep, RecvError>) -> bool {
    step matches Ok(RecvStep::Continue)
}

/// Whether the flow goes on with a message.
pub open spec fn sends(step: Result<RecvStep, RecvError>, message: ControlMessage) -> bool {
    step matches Ok(RecvStep::Send(m)) && m == message
}

/// Whether the flow ends cancelled, with the peer told or not.
pub open spec fn is_cancelled(step: Result<RecvStep, RecvError>, telling: bool) -> bool {
    step matches Ok(RecvStep::End { last_words, outcome }) && outcome == ReceiveOutcome::Cancelled
        && last_words == if telling {
        Some(ControlMessage::Cancel)
    } else {
        None
    }
}

/// Whether a refusal is sent.
pub open spec fn refuses(step: Result<RecvStep, RecvError>) -> bool {
    step matches Ok(RecvStep::Send(ControlMessage::Decline { reason })) && reason@
        == "user declined"@
}

/// The message that reports a result.
pub open spec fn report(result: TransferResult) -> ControlMessage {
    ControlMessage::Result {
        bytes: result.bytes,
        files: result.files as u32,
        skipped_bytes: result.skipped_bytes,
        skipped_files: result.skipped_files as u32,
    }
}

/// Whether an offer is accepted: as decided beforehand, or else as the user answers, and a missing
/// answer is a no.
pub open spec fn accepts(preset: Option<bool>, answer: Answer) -> bool {
    match preset {
        Some(accept) => accept,
        None => answer matches Answer::Line(line) && says_yes(line@),
    }
}

/// A receive in progress.
pub struct ReceiveFlow {
    session: Session,
    phase: RecvPhase,
    preset: Option<bool>,
    output: String,
    nameplate: u32,
    words: String,
    ticket: String,
    files: Vec<FileMeta>,
    total: u64,
    done: Option<(u64, usize, usize)>,
}

/// What a receive flow knows.
#[verifier::ext_equal]
pub struct RecvView {
    pub phase: RecvPhase,
    pub session: SessionPhase,
    pub signalled: bool,
    /// Whether to accept, where that is decided beforehand.
    pub preset: Option<bool>,
    pub output: Seq<char>,
    pub nameplate: u32,
    pub words: Seq<char>,
    pub ticket: Seq<char>,
    pub files: Seq<FileMeta>,
    pub total: u64,
    /// The exported bytes and files and the skipped files of the download.
    pub done: Option<(u64, usize, usize)>,
}

impl RecvView {
    /// The flow at another step.
    pub open spec fn at(self, phase: RecvPhase) -> RecvView {
        RecvView { phase, ..self }
    }

    /// The flow, over.
    pub open spec fn ended(self) -> RecvView {
        self.at(RecvPhase::Ended)
    }

    /// The flow, over, with the session cancelled.
    pub open spec fn cancelled(self) -> RecvView {
        RecvView {
            phase: RecvPhase::Ended,
            session: SessionPhase::Cancelled,
            signalled: true,
            ..self
        }
    }

    /// The session is as far as the flow is: there is no offer before the pairing is confirmed,
    /// and no download before the acceptance is sent.
    pub open spec fn wf(self) -> bool {
        &&& self.signalled ==> self.session == SessionPhase::Cancelled
        &&& match self.phase {
            RecvPhase::AwaitOffer
            | RecvPhase::Decide
            | RecvPhase::Accept
            | RecvPhase::AwaitCloseDeclined => self.session == SessionPhase::Paired,
            RecvPhase::Download => self.session == SessionPhase::Transferring,
            RecvPhase::AwaitCloseDone => self.session == SessionPhase::Transferring
                && self.done is Some,
            RecvPhase::Ended => true,
            _ => self.session == SessionPhase::Created,
        }
    }
}

impl View for ReceiveFlow {
    type V = RecvView;

    closed spec fn view(&self) -> RecvView {
        RecvView {
            phase: self.phase,
            session: self.session.at(),
            signalled: self.session.signalled(),
            preset: self.preset,
            output: self.output@,
            nameplate: self.nameplate,
            words: self.words@,
            ticket: self.ticket@,
            files: self.files@,
            total: self.total,
            done: self.done,
        }
    }
}

impl ReceiveFlow {
    /// A flow that has just begun: the files go into `output`, or into the current directory, and
    /// the offer is accepted or declined as `auto_accept` says, if it says anything.
    pub fn new(output: Option<String>, auto_accept: Option<bool>) -> (flow: Self)
        ensures
            flow@ == (RecvView {
                phase: RecvPhase::Code,
                session: SessionPhase::Created,
                signalled: false,
                preset: auto_accept,
                output: match output {
                    Some(dir) => dir@,
                    None => "."@,
                },
                nameplate: 0,
                words: ""@,
                ticket: ""@,
                files: Seq::empty(),
                total: 0,
                done: None,
            }),
            flow@.wf(),
    {
        proof {
            reveal_strlit("");
        }
        let flow = ReceiveFlow {
            session: Session::new(),
            phase: RecvPhase::Code,
            preset: auto_accept,
            output: match output {
                Some(dir) => dir,
                None => ".".to_owned(),
            },
            nameplate: 0,
            words: String::new(),
            ticket: String::new(),
            files: Vec::new(),
            total: 0,
            done: None,
        };
        assert(flow@.words =~= ""@ && flow@.ticket =~= ""@);
        flow
    }

    /// The step to carry out.
    pub fn phase(&self) -> (phase: RecvPhase)
        ensures
            phase == self@.phase,
    {
        self.phase
    }

    /// The nameplate to claim.
    pub fn nameplate(&self) -> (nameplate: u32)
        ensures
            nameplate == self@.nameplate,
    {
        self.nameplate
    }

    /// The words of the code, for the pairing exchange alone.
    pub fn words(&self) -> (words: &str)
        ensures
            words@ == self@.words,
    {
        self.words.as_str()
    }

    /// The claimed ticket.
    pub fn ticket(&self) -> (ticket: &str)
        ensures
            ticket@ == self@.ticket,
    {
        self.ticket.as_str()
    }

    /// The directory that the files go into.
    pub fn output(&self) -> (output: &str)
        ensures
            output@ == self@.output,
    {
        self.output.as_str()
    }

    /// The files of the offer.
    pub fn files(&self) -> (files: &Vec<FileMeta>)
        ensures
            files@ == self@.files,
    {
        &self.files
    }

    /// The bytes of the offer.
    pub fn total(&self) -> (total: u64)
        ensures
            total == self@.total,
    {
        self.total
    }

    /// Whether the user is to be asked about the offer.
    pub fn asks(&self) -> (yes: bool)
        ensures
            yes == (self@.preset is None),
    {
        match self.preset {
            Some(_) => false,
            None => true,
        }
    }

    /// The code has been entered, or not.
    pub fn code_entered(&mut self, input: CodeInput) -> (step: Result<RecvStep, RecvError>)
        requires
            old(self)@.wf(),
            old(self)@.phase == RecvPhase::Code,
        ensures
            final(self)@.wf(),
            match input {
                CodeInput::Interrupted => is_cancelled(step, false) && final(self)@
                    == old(self)@.ended(),
                CodeInput::Missing => step == Err::<RecvStep, _>(RecvError::NoCode) && final(self)@
                    == old(self)@.ended(),
                CodeInput::Given(code) => if trimmed(code@).len() == 0 {
                    step == Err::<RecvStep, _>(RecvError::NoCode) && final(self)@
                        == old(self)@.ended()
                } else {
                    match split_code(trimmed(code@)) {
                        Ok((nameplate, words)) => {
                            &&& goes_on(step)
                            &&& final(self)@.nameplate == nameplate
                            &&& final(self)@ == (RecvView {
                                phase: RecvPhase::Claim,
                                nameplate: final(self)@.nameplate,
                                words,
                                ..old(self)@
                            })
                        },
                        Err(fault) => {
                            &&& step matches Err(RecvError::Word(error))
                            &&& error@ == fault
                            &&& final(self)@ == old(self)@.ended()
                        },
                    }
                },
            },
    {
        self.phase = RecvPhase::Ended;
        match input {
            CodeInput::Interrupted => Ok(
                RecvStep::End { last_words: None, outcome: ReceiveOutcome::Cancelled },
            ),
            CodeInput::Missing => Err(RecvError::NoCode),
            CodeInput::Given(code) => match read_code(code.as_str()) {
                Ok((nameplate, words)) => {
                    self.nameplate = nameplate;
                    self.words = words;
                    self.phase = RecvPhase::Claim;
                    Ok(RecvStep::Continue)
                },
                Err(error) => Err(error),
            },
        }
    }

    /// The nameplate has been claimed, or not.
    pub fn claimed(&mut self, outcome: Claimed) -> (step: Result<RecvStep, RecvError>)
        requires
            old(self)@.wf(),
            old(self)@.phase == RecvPhase::Claim,
        ensures
            final(self)@.wf(),
            match outcome {
                Claimed::Interrupted => is_cancelled(step, false) && final(self)@
                    == old(self)@.ended(),
                Claimed::Failed(error) => step == Err::<RecvStep, _>(RecvError::Rv(error))
                    && final(self)@ == old(self)@.ended(),
                Claimed::Ticket(ticket) => goes_on(step) && final(self)@ == (RecvView {
                    phase: RecvPhase::Ticket,
                    ticket: ticket@,
                    ..old(self)@
                }),
            },
    {
        self.phase = RecvPhase::Ended;
        match outcome {
            Claimed::Interrupted => Ok(
                RecvStep::End { last_words: None, outcome: ReceiveOutcome::Cancelled },
            ),
            Claimed::Failed(error) => Err(RecvError::Rv(error)),
            Claimed::Ticket(ticket) => {
                self.ticket = ticket;
                self.phase = RecvPhase::Ticket;
                Ok(RecvStep::Continue)
            },
        }
    }

    /// The claimed text has turned out to be a ticket, or not.
    pub fn ticket_read(&mut self, is_ticket: bool) -> (step: Result<(), RecvError>)
        requires
            old(self)@.wf(),
            old(self)@.phase == RecvPhase::Ticket,
        ensures
            final(self)@.wf(),
            if is_ticket {
                step is Ok && final(self)@ == old(self)@.at(RecvPhase::Engine)
            } else {
                &&& step matches Err(RecvError::Ticket(ticket))
                &&& ticket@ == old(self)@.ticket
                &&& final(self)@ == old(self)@.ended()
            },
    {
        if is_ticket {
            self.phase = RecvPhase::Engine;
            Ok(())
        } else {
            self.phase = RecvPhase::Ended;
            Err(RecvError::Ticket(self.ticket.clone()))
        }
    }

    /// The engine has started, or not. Contact with a relay is waited for if there is one.
    pub fn engine_started(
        &mut self,
        outcome: Result<(), crate::transfer::engine::Error>,
        relay: &RelayMode,
    ) -> (step: Result<(), RecvError>)
        requires
            old(self)@.wf(),
            old(self)@.phase == RecvPhase::Engine,
        ensures
            final(self)@.wf(),
            match outcome {
                Ok(()) => step is Ok && final(self)@ == old(self)@.at(
                    if relay is Disabled {
                        RecvPhase::Output
                    } else {
                        RecvPhase::Relay
                    },
                ),
                Err(error) => step == Err::<(), _>(RecvError::Engine(error)) && final(self)@
                    == old(self)@.ended(),
            },
    {
        match outcome {
            Ok(()) => {
                self.phase = if awaits_relay(relay) {
                    RecvPhase::Relay
                } else {
                    RecvPhase::Output
                };
                Ok(())
            },
            Err(error) => {
                self.phase = RecvPhase::Ended;
                Err(RecvError::Engine(error))
            },
        }
    }

    /// The relay has been contacted, or not in time.
    pub fn relay_awaited(&mut self, contacted: bool) -> (step: Result<(), RecvError>)
        requires
            old(self)@.wf(),
            old(self)@.phase == RecvPhase::Relay,
        ensures
            final(self)@.wf(),
            if contacted {
                step is Ok && final(self)@ == old(self)@.at(RecvPhase::Output)
            } else {
                step == Err::<(), _>(RecvError::RelayHung) && final(self)@ == old(self)@.ended()
            },
    {
        if contacted {
            self.phase = RecvPhase::Output;
            Ok(())
        } else {
            self.phase = RecvPhase::Ended;
            Err(RecvError::RelayHung)
        }
    }

    /// The output dir has been made absolute, or not.
    pub fn output_resolved(&mut self, outcome: Result<String, String>) -> (step: Result<
        (),
        RecvError,
    >)
        requires
            old(self)@.wf(),
            old(self)@.phase == RecvPhase::Output,
        ensures
            final(self)@.wf(),
            match outcome {
                Ok(path) => step is Ok && final(self)@ == (RecvView {
                    phase: RecvPhase::Dial,
                    output: path@,
                    ..old(self)@
                }),
                Err(source) => {
                    &&& step matches Err(RecvError::Receive(error))
                    &&& error@ == ReceiveFault::TargetDirResolve(old(self)@.output, source@)
                    &&& final(self)@ == old(self)@.ended()
                },
            },
    {
        match outcome {
            Ok(path) => {
                self.output = path;
                self.phase = RecvPhase::Dial;
                Ok(())
            },
            Err(source) => {
                self.phase = RecvPhase::Ended;
                Err(
                    RecvError::Receive(
                        ReceiveError::TargetDirResolve { path: self.output.clone(), source },
                    ),
                )
            },
        }
    }

    /// The sender has been dialed.
    pub fn dialed(&mut self, outcome: DialOut) -> (step: Result<RecvStep, RecvError>)
        requires
            old(self)@.wf(),
            old(self)@.phase == RecvPhase::Dial,
        ensures
            final(self)@.wf(),
            final(self)@ == if outcome is Connected {
                old(self)@.at(RecvPhase::OpenStream)
            } else {
                old(self)@.ended()
            },
            match outcome {
                DialOut::Interrupted => is_cancelled(step, false),
                DialOut::TimedOut => step matches Err(RecvError::Hung(what)) && what@
                    == "connect to sender"@,
                DialOut::Refused(reason) => step == Err::<RecvStep, _>(
                    RecvError::Pair(PairError::Io(reason)),
                ),
                DialOut::Connected => goes_on(step),
            },
    {
        self.phase = RecvPhase::Ended;
        match outcome {
            DialOut::Interrupted => Ok(
                RecvStep::End { last_words: None, outcome: ReceiveOutcome::Cancelled },
            ),
            DialOut::TimedOut => Err(RecvError::Hung("connect to sender")),
            DialOut::Refused(reason) => Err(RecvError::Pair(PairError::Io(reason))),
            DialOut::Connected => {
                self.phase = RecvPhase::OpenStream;
                Ok(RecvStep::Continue)
            },
        }
    }

    /// The control stream has been opened, or not. The receiver greets first.
    pub fn stream_opened(&mut self, outcome: Result<(), String>) -> (step: Result<
        RecvStep,
        RecvError,
    >)
        requires
            old(self)@.wf(),
            old(self)@.phase == RecvPhase::OpenStream,
        ensures
            final(self)@.wf(),
            match outcome {
                Ok(()) => {
                    &&& sends(step, (ControlMessage::Hello { version: PROTOCOL_VERSION }))
                    &&& final(self)@ == old(self)@.at(RecvPhase::Greet)
                },
                Err(reason) => step == Err::<RecvStep, _>(RecvError::Connection(reason))
                    && final(self)@ == old(self)@.ended(),
            },
    {
        match outcome {
            Ok(()) => {
                self.phase = RecvPhase::Greet;
                Ok(RecvStep::Send(ControlMessage::Hello { version: PROTOCOL_VERSION }))
            },
            Err(reason) => {
                self.phase = RecvPhase::Ended;
                Err(RecvError::Connection(reason))
            },
        }
    }

    /// The sender's first message has come, or not.
    pub fn greeted(&mut self, outcome: Result<ControlMessage, SessionError>) -> (step: Result<
        (),
        RecvError,
    >)
        requires
            old(self)@.wf(),
            old(self)@.phase == RecvPhase::Greet,
        ensures
            final(self)@.wf(),
            match outcome {
                Ok(_) => step is Ok && final(self)@ == old(self)@.at(RecvPhase::Pair),
                Err(error) => step == Err::<(), _>(RecvError::Control(error)) && final(self)@
                    == old(self)@.ended(),
            },
    {
        match outcome {
            Ok(_) => {
                self.phase = RecvPhase::Pair;
                Ok(())
            },
            Err(error) => {
                self.phase = RecvPhase::Ended;
                Err(RecvError::Control(error))
            },
        }
    }

    /// The pairing exchange has ended.
    pub fn paired(&mut self, outcome: Paired) -> (step: Result<RecvStep, RecvError>)
        requires
            old(self)@.wf(),
            old(self)@.phase == RecvPhase::Pair,
        ensures
            final(self)@.wf(),
            match outcome {
                Paired::Interrupted => is_cancelled(step, true) && final(self)@
                    == old(self)@.ended(),
                Paired::Confirmed => goes_on(step) && final(self)@ == (RecvView {
                    phase: RecvPhase::AwaitOffer,
                    session: SessionPhase::Paired,
                    ..old(self)@
                }),
                Paired::Failed(error) => step == Err::<RecvStep, _>(RecvError::Pair(error))
                    && final(self)@ == old(self)@.ended(),
            },
    {
        self.phase = RecvPhase::Ended;
        match outcome {
            Paired::Interrupted => Ok(
                RecvStep::End {
                    last_words: Some(ControlMessage::Cancel),
                    outcome: ReceiveOutcome::Cancelled,
                },
            ),
            Paired::Confirmed => {
                match self.session.transition(Transition::StartPairing) {
                    Ok(_) => {},
                    Err(error) => return Err(RecvError::Transition(error)),
                }
                match self.session.transition(Transition::PairConfirmed) {
                    Ok(_) => {},
                    Err(error) => return Err(RecvError::Transition(error)),
                }
                self.phase = RecvPhase::AwaitOffer;
                Ok(RecvStep::Continue)
            },
            Paired::Failed(error) => Err(RecvError::Pair(error)),
        }
    }

    /// Cancels the session and ends the flow, telling the peer.
    fn cancelled(&mut self) -> (step: Result<RecvStep, RecvError>)
        requires
            !old(self)@.session.terminal(),
        ensures
            final(self)@ == old(self)@.cancelled(),
            is_cancelled(step, true),
    {
        self.phase = RecvPhase::Ended;
        match self.session.cancel() {
            Ok(_) => Ok(
                RecvStep::End {
                    last_words: Some(ControlMessage::Cancel),
                    outcome: ReceiveOutcome::Cancelled,
                },
            ),
            Err(error) => Err(RecvError::Transition(error)),
        }
    }

    /// The offer has come, or waiting for it has ended otherwise.
    pub fn offered(&mut self, outcome: Offered) -> (step: Result<RecvStep, RecvError>)
        requires
            old(self)@.wf(),
            old(self)@.phase == RecvPhase::AwaitOffer,
        ensures
            final(self)@.wf(),
            match outcome {
                Offered::Interrupted => is_cancelled(step, true) && final(self)@
                    == old(self)@.cancelled(),
                Offered::Message(ControlMessage::Offer { files, total_bytes }) => {
                    &&& goes_on(step)
                    &&& final(self)@ == (RecvView {
                        phase: RecvPhase::Decide,
                        files: files@,
                        total: total_bytes,
                        ..old(self)@
                    })
                },
                Offered::Message(other) => step == Err::<RecvStep, _>(
                    RecvError::UnexpectedMessage(other),
                ) && final(self)@ == old(self)@.ended(),
                Offered::Failed(error) => step == Err::<RecvStep, _>(RecvError::Control(error))
                    && final(self)@ == old(self)@.ended(),
            },
    {
        match outcome {
            Offered::Interrupted => self.cancelled(),
            Offered::Message(ControlMessage::Offer { files, total_bytes }) => {
                self.files = files;
                self.total = total_bytes;
                self.phase = RecvPhase::Decide;
                Ok(RecvStep::Continue)
            },
            Offered::Message(other) => {
                self.phase = RecvPhase::Ended;
                Err(RecvError::UnexpectedMessage(other))
            },
            Offered::Failed(error) => {
                self.phase = RecvPhase::Ended;
                Err(RecvError::Control(error))
            },
        }
    }

    /// The offer has been answered, or waiting for that has ended otherwise. Where the answer is
    /// decided beforehand, nothing is waited for, and `answer` does not count.
    pub fn decided(&mut self, answer: Answer) -> (step: Result<RecvStep, RecvError>)
        requires
            old(self)@.wf(),
            old(self)@.phase == RecvPhase::Decide,
        ensures
            final(self)@.wf(),
            if old(self)@.preset is None && answer is Interrupted {
                is_cancelled(step, true) && final(self)@ == old(self)@.cancelled()
            } else if accepts(old(self)@.preset, answer) {
                sends(step, ControlMessage::Accept) && final(self)@ == old(self)@.at(
                    RecvPhase::Accept,
                )
            } else {
                refuses(step) && final(self)@ == old(self)@.at(RecvPhase::AwaitCloseDeclined)
            },
            old(self)@.preset is None ==> (answer matches Answer::Line(line) ==> (
            vstd::utf8::is_ascii_chars(trimmed(line@)) ==> sends(step, ControlMessage::Accept) == (
            ascii_lowercase(trimmed(line@)) == "y"@ || ascii_lowercase(trimmed(line@))
                == "yes"@))),
    {
        let accepted = match self.preset {
            Some(accept) => accept,
            None => match answer {
                Answer::Interrupted => return self.cancelled(),
                Answer::Nothing => false,
                Answer::Line(line) => is_yes(line.as_str()),
            },
        };
        if !accepted {
            self.phase = RecvPhase::AwaitCloseDeclined;
            return Ok(
                RecvStep::Send(ControlMessage::Decline { reason: "user declined".to_owned() }),
            );
        }
        self.phase = RecvPhase::Accept;
        Ok(RecvStep::Send(ControlMessage::Accept))
    }

    /// The acceptance has been sent, or not: only now does the transfer start.
    pub fn accept_sent(&mut self, outcome: Result<(), SessionError>) -> (step: Result<(), RecvError>)
        requires
            old(self)@.wf(),
            old(self)@.phase == RecvPhase::Accept,
        ensures
            final(self)@.wf(),
            match outcome {
                Ok(()) => step is Ok && final(self)@ == (RecvView {
                    phase: RecvPhase::Download,
                    session: SessionPhase::Transferring,
                    ..old(self)@
                }),
                Err(error) => step == Err::<(), _>(RecvError::Control(error)) && final(self)@
                    == old(self)@.ended(),
            },
    {
        self.phase = RecvPhase::Ended;
        match outcome {
            Ok(()) => match self.session.transition(Transition::TransferStarted) {
                Ok(_) => {
                    self.phase = RecvPhase::Download;
                    Ok(())
                },
                Err(error) => Err(RecvError::Transition(error)),
            },
            Err(error) => Err(RecvError::Control(error)),
        }
    }

    /// The download and the export have ended. Returns the message to send: the result, or, after
    /// a failure, a cancellation of which it does not matter whether it arrives.
    pub fn downloaded(&mut self, outcome: Result<TransferResult, ReceiveError>) -> (step: (
        ControlMessage,
        Result<(), RecvError>,
    ))
        requires
            old(self)@.wf(),
            old(self)@.phase == RecvPhase::Download,
        ensures
            final(self)@.wf(),
            match outcome {
                Ok(result) => {
                    &&& step.0 == report(result)
                    &&& step.1 is Ok
                    &&& final(self)@ == (RecvView {
                        phase: RecvPhase::AwaitCloseDone,
                        done: Some((result.bytes, result.files, result.skipped_files)),
                        ..old(self)@
                    })
                },
                Err(error) => {
                    &&& step.0 == ControlMessage::Cancel
                    &&& step.1 == Err::<(), _>(RecvError::Receive(error))
                    &&& final(self)@ == old(self)@.cancelled()
                },
            },
    {
        match outcome {
            Ok(result) => {
                self.done = Some((result.bytes, result.files, result.skipped_files));
                self.phase = RecvPhase::AwaitCloseDone;
                let message = ControlMessage::Result {
                    bytes: result.bytes,
                    files: #[verifier::truncate] (result.files as u32),
                    skipped_bytes: result.skipped_bytes,
                    skipped_files: #[verifier::truncate] (result.skipped_files as u32),
                };
                (message, Ok(()))
            },
            Err(error) => {
                let _ = self.cancelled();
                (ControlMessage::Cancel, Err(RecvError::Receive(error)))
            },
        }
    }

    /// The sender has closed the stream, or not.
    pub fn closed(&mut self, outcome: Result<(), PairError>) -> (end: Result<
        ReceiveOutcome,
        RecvError,
    >)
        requires
            old(self)@.wf(),
            old(self)@.phase == RecvPhase::AwaitCloseDeclined || old(self)@.phase
                == RecvPhase::AwaitCloseDone,
        ensures
            final(self)@.wf(),
            match outcome {
                Ok(()) => if old(self)@.phase == RecvPhase::AwaitCloseDone {
                    &&& end matches Ok(ReceiveOutcome::Completed { bytes, files, skipped_files })
                    &&& old(self)@.done == Some((bytes, files, skipped_files))
                    &&& final(self)@ == (RecvView {
                        phase: RecvPhase::Ended,
                        session: SessionPhase::Done,
                        ..old(self)@
                    })
                } else {
                    end == Ok::<_, RecvError>(ReceiveOutcome::Declined) && final(self)@
                        == old(self)@.ended()
                },
                Err(error) => end == Err::<ReceiveOutcome, _>(RecvError::Pair(error))
                    && final(self)@ == old(self)@.ended(),
            },
    {
        let phase = self.phase;
        self.phase = RecvPhase::Ended;
        match outcome {
            Ok(()) => match (phase, self.done) {
                (RecvPhase::AwaitCloseDone, Some((bytes, files, skipped_files))) => {
                    match self.session.transition(Transition::Completed) {
                        Ok(_) => Ok(ReceiveOutcome::Completed { bytes, files, skipped_files }),
                        Err(error) => Err(RecvError::Transition(error)),
                    }
                },
                _ => Ok(ReceiveOutcome::Declined),
            },
            Err(error) => Err(RecvError::Pair(error)),
        }
    }

    /// A control message could not be sent: the flow is over, and the session stays as it is.
    pub fn not_sent(&mut self, error: SessionError) -> (fault: RecvError)
        requires
            old(self)@.wf(),
        ensures
            final(self)@.wf(),
            final(self)@ == old(self)@.ended(),
            fault == RecvError::Control(error),
    {
        self.phase = RecvPhase::Ended;
        RecvError::Control(error)
    }
}

proof fn same_sizes(prepared: Seq<PreparedFile>, files: Seq<CollectionFile>)
    requires
        prepared.len() == files.len(),
        forall|i: int| 0 <= i < files.len() ==> (#[trigger] files[i]).size == prepared[i].size,
    ensures
        collection_size(files, files.len() as int) == total_size(prepared),
    decreases files.len(),
{
    if files.len() > 0 {
        let n = files.len() - 1;
        same_sizes(prepared.drop_last(), files.drop_last());
        sizes_of_front(files, n);
        assert(prepared.last() == prepared[n]);
    }
}

proof fn sizes_of_front(files: Seq<CollectionFile>, n: int)
    requires
        0 <= n < files.len(),
    ensures
        collection_size(files, n) == collection_size(files.drop_last(), n),
    decreases n,
{
    if n > 0 {
        sizes_of_front(files, n - 1);
    }
}

/// What a complete receive reports satisfies the sender, however many of the files were there
/// already: the exported and the skipped files and bytes add up to what was prepared.
pub proof fn complete_receive_reconciles(
    prepared: Seq<PreparedFile>,
    total: u64,
    files: Seq<CollectionFile>,
    fates: Seq<FileFate>,
    result: TransferResult,
)
    requires
        total == total_size(prepared),
        prepared.len() <= u32::MAX,
        files.len() == prepared.len(),
        forall|i: int| 0 <= i < files.len() ==> (#[trigger] files[i]).size == prepared[i].size,
        fates.len() == files.len(),
        forall|i: int|
            0 <= i < fates.len() ==> (#[trigger] fates[i] matches FileFate::Exported(size) ==> size
                == files[i].size),
        result.bytes == exported_bytes(fates),
        result.files == exported_count(fates),
        result.skipped_bytes == passed_bytes(files, fates),
        result.files + result.skipped_files == files.len(),
    ensures
        report(result) matches ControlMessage::Result {
            bytes,
            files: count,
            skipped_bytes,
            skipped_files,
        } && accounts_for(
            bytes,
            count,
            skipped_bytes,
            skipped_files,
            total,
            prepared.len() as u32,
        ),
{
    complete_receive_accounts_for_all_bytes(files, fates);
    same_sizes(prepared, files);
}

} // verus!
