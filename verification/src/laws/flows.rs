//! Laws of the two flows, of the session behind them and of the messages between them.
use vstd::prelude::*;

use crate::laws::text::trim_cuts;
use crate::pairing::wordcode::CodeView;
use crate::receive::{
    is_yes, resumes, Answer, Claimed, CodeInput, DialOut, Offered, Paired, ReceiveFlow,
    ReceiveOutcome, RecvError, RecvPhase, RecvStep, RecvView,
};
use crate::relay::RelayMode;
use crate::rendezvous_client::{Allocation, RvError};
use crate::send::{
    describe_files, progress_position, result_matches, Awaited, DialIn, SendError, SendFlow,
    SendOutcome, SendPhase, SendStep, StreamOpen,
};
use crate::session::control::{message_read, ControlMessage, FileMeta, SessionError};
use crate::session::state::{SessionPhase, Transition, TransitionError};
use crate::session::{Race, Session};
use crate::text::{ascii_lower, ascii_lowercase, padding_is_trimmed, trimmed, white_space};
use crate::transfer::receive::{ReceiveError, TransferResult};
use crate::transfer::send::{PreparedFile, PreparedTransfer};
use crate::wire::{answer_hello, peer_closed, CloseRead, PairError};

verus! {

broadcast use vstd::string::group_string_axioms;

/// Whether a word is `y` or `yes`, each letter in either case.
pub open spec fn is_yes_word(word: Seq<char>) -> bool {
    ||| word.len() == 1 && (word[0] == 'y' || word[0] == 'Y')
    ||| {
        &&& word.len() == 3
        &&& word[0] == 'y' || word[0] == 'Y'
        &&& word[1] == 'e' || word[1] == 'E'
        &&& word[2] == 's' || word[2] == 'S'
    }
}

/// Whether white space is all that stands before `from` and from `to` on.
pub open spec fn white_around(line: Seq<char>, from: int, to: int) -> bool {
    &&& 0 <= from <= to <= line.len()
    &&& forall|i: int| 0 <= i < from || to <= i < line.len() ==> white_space(#[trigger] line[i])
}

/// Whether a line is `y` or `yes` and white space.
pub open spec fn means_yes(line: Seq<char>) -> bool {
    exists|from: int, to: int| #[trigger]
        white_around(line, from, to) && is_yes_word(line.subrange(from, to))
}

proof fn yes_words(line: Seq<char>)
    ensures
        means_yes(line) <==> (ascii_lowercase(trimmed(line)) == "y"@ || ascii_lowercase(
            trimmed(line),
        ) == "yes"@),
        vstd::utf8::is_ascii_chars(line) ==> vstd::utf8::is_ascii_chars(trimmed(line)),
{
    reveal_strlit("y");
    reveal_strlit("yes");
    let ends = trim_cuts(line);
    let core = trimmed(line);
    let low = ascii_lowercase(core);
    assert(white_around(line, ends.0, ends.1));
    assert(forall|i: int| 0 <= i < core.len() ==> core[i] == line[i + ends.0]);
    if low == "y"@ || low == "yes"@ {
        assert(low.len() == core.len());
        assert(forall|i: int| 0 <= i < low.len() ==> low[i] == ascii_lower(core[i]));
        assert(low[0] == 'y');
        if low == "yes"@ {
            assert(low[1] == 'e' && low[2] == 's');
        }
        assert(is_yes_word(core));
    }
    if means_yes(line) {
        let (from, to) = choose|from: int, to: int| #[trigger]
            white_around(line, from, to) && is_yes_word(line.subrange(from, to));
        let word = line.subrange(from, to);
        let before = line.take(from);
        let after = line.skip(to);
        assert(line =~= before + word + after);
        assert(!white_space(word[0]) && !white_space(word.last()));
        assert forall|i: int| 0 <= i < before.len() implies white_space(#[trigger] before[i]) by {
            assert(white_space(line[i]));
        }
        assert forall|i: int| 0 <= i < after.len() implies white_space(#[trigger] after[i]) by {
            assert(white_space(line[i + to]));
        }
        padding_is_trimmed(before, word, after);
        if word.len() == 1 {
            assert(low =~= "y"@);
        } else {
            assert(low =~= "yes"@);
        }
    }
}

/// A question is answered with yes by `y` and `yes`, in either case and with white space around
/// them, and by no other line of ASCII characters.
pub proof fn only_y_and_yes_mean_yes(line: &str, yes: bool)
    requires
        call_ensures(is_yes, (line,), yes),
        vstd::utf8::is_ascii_chars(line@),
    ensures
        yes <==> means_yes(line@),
{
    yes_words(line@);
}

/// A transfer is resumed only where the user says yes; no answer is a no.
pub proof fn a_transfer_resumes_on_yes_alone(answer: Option<&str>, yes: bool)
    requires
        call_ensures(resumes, (answer,), yes),
        answer matches Some(line) ==> vstd::utf8::is_ascii_chars(line@),
    ensures
        answer is None ==> !yes,
        answer matches Some(line) ==> (yes <==> means_yes(line@)),
{
    if let Some(line) = answer {
        yes_words(line@);
    }
}

/// Whether a step sends the acceptance.
pub open spec fn sends_accept(step: Result<RecvStep, RecvError>) -> bool {
    step matches Ok(RecvStep::Send(ControlMessage::Accept))
}

/// Whether a step sends a refusal.
pub open spec fn sends_decline(step: Result<RecvStep, RecvError>) -> bool {
    step matches Ok(RecvStep::Send(ControlMessage::Decline { .. }))
}

/// What the user typed decides where nothing was decided beforehand: a line of ASCII characters
/// leads to the acceptance exactly if it means yes, and every other line to the refusal.
pub proof fn the_typed_answer_decides(
    flow: &mut ReceiveFlow,
    line: String,
    step: Result<RecvStep, RecvError>,
)
    requires
        call_ensures(ReceiveFlow::decided, (flow, Answer::Line(line)), step),
        old(flow)@.preset is None,
        vstd::utf8::is_ascii_chars(line@),
    ensures
        sends_accept(step) <==> means_yes(line@),
        sends_decline(step) <==> !means_yes(line@),
        means_yes(line@) ==> final(flow)@.phase == RecvPhase::Accept,
        !means_yes(line@) ==> final(flow)@.phase == RecvPhase::AwaitCloseDeclined,
{
    yes_words(line@);
}

/// Without an answer the offer is refused, an interruption cancels, and what was decided
/// beforehand holds whatever is answered. A refusal says that the user declined.
pub proof fn no_answer_is_a_refusal(
    flow: &mut ReceiveFlow,
    answer: Answer,
    step: Result<RecvStep, RecvError>,
)
    requires
        call_ensures(ReceiveFlow::decided, (flow, answer), step),
    ensures
        old(flow)@.preset is None && answer is Nothing ==> sends_decline(step),
        old(flow)@.preset is None && answer is Interrupted ==> final(flow)@.session
            == SessionPhase::Cancelled && (step matches Ok(
            RecvStep::End { last_words: Some(ControlMessage::Cancel), outcome },
        ) && outcome == ReceiveOutcome::Cancelled),
        old(flow)@.preset == Some(true) ==> sends_accept(step) && final(flow)@.phase
            == RecvPhase::Accept,
        old(flow)@.preset == Some(false) ==> sends_decline(step) && final(flow)@.phase
            == RecvPhase::AwaitCloseDeclined,
        step matches Ok(RecvStep::Send(ControlMessage::Decline { reason })) ==> reason@
            == "user declined"@,
        step matches Ok(RecvStep::Send(message)) ==> message is Accept || message is Decline,
        final(flow)@.words == old(flow)@.words,
        final(flow)@.output == old(flow)@.output,
{
}

/// The flow ends without a word to the peer, or with a cancellation, as cancelled.
pub open spec fn ends_cancelled(step: Result<RecvStep, RecvError>, telling: bool) -> bool {
    step matches Ok(RecvStep::End { last_words, outcome }) && outcome is Cancelled && if telling {
        last_words matches Some(ControlMessage::Cancel)
    } else {
        last_words is None
    }
}

/// The claimed ticket is the one that is used; a claim that is interrupted ends the flow without
/// a word, and one that fails ends it with the reason.
pub proof fn the_claimed_ticket_is_used(
    flow: &mut ReceiveFlow,
    outcome: Claimed,
    step: Result<RecvStep, RecvError>,
)
    requires
        call_ensures(ReceiveFlow::claimed, (flow, outcome), step),
    ensures
        outcome matches Claimed::Ticket(ticket) ==> final(flow)@.ticket == ticket@
            && final(flow)@.phase == RecvPhase::Ticket && (step matches Ok(RecvStep::Continue)),
        outcome is Interrupted ==> ends_cancelled(step, false) && final(flow)@.phase
            == RecvPhase::Ended,
        outcome matches Claimed::Failed(error) ==> step == Err::<RecvStep, _>(RecvError::Rv(error))
            && final(flow)@.phase == RecvPhase::Ended,
        final(flow)@.words == old(flow)@.words,
        final(flow)@.nameplate == old(flow)@.nameplate,
{
}

/// Only what is a ticket is dialed with, the relay is waited for exactly where there is one, and
/// the flow goes on only once it is there.
pub proof fn the_engine_waits_for_its_relay(
    flow: &mut ReceiveFlow,
    is_ticket: bool,
    read: Result<(), RecvError>,
    started: &mut ReceiveFlow,
    relay: &RelayMode,
    step: Result<(), RecvError>,
    awaited: &mut ReceiveFlow,
    contacted: bool,
    contact: Result<(), RecvError>,
)
    requires
        call_ensures(ReceiveFlow::ticket_read, (flow, is_ticket), read),
        call_ensures(
            ReceiveFlow::engine_started,
            (started, Ok::<(), crate::transfer::engine::Error>(()), relay),
            step,
        ),
        call_ensures(ReceiveFlow::relay_awaited, (awaited, contacted), contact),
    ensures
        is_ticket <==> read is Ok,
        final(flow)@.phase == if is_ticket {
            RecvPhase::Engine
        } else {
            RecvPhase::Ended
        },
        step is Ok,
        final(started)@.phase == if relay is Disabled {
            RecvPhase::Output
        } else {
            RecvPhase::Relay
        },
        contacted <==> contact is Ok,
        !contacted ==> contact == Err::<(), _>(RecvError::RelayHung),
        final(awaited)@.phase == if contacted {
            RecvPhase::Output
        } else {
            RecvPhase::Ended
        },
{
}

/// The receiver greets first, with the version of the protocol, and pairs once it has been
/// greeted back.
pub proof fn the_receiver_greets_first(
    flow: &mut ReceiveFlow,
    outcome: Result<(), String>,
    step: Result<RecvStep, RecvError>,
    greeting: &mut ReceiveFlow,
    answer: Result<ControlMessage, SessionError>,
    paired: Result<(), RecvError>,
)
    requires
        call_ensures(ReceiveFlow::stream_opened, (flow, outcome), step),
        call_ensures(ReceiveFlow::greeted, (greeting, answer), paired),
    ensures
        outcome is Ok ==> final(flow)@.phase == RecvPhase::Greet && (step matches Ok(
            RecvStep::Send(ControlMessage::Hello { version }),
        ) && version == 1),
        outcome is Err ==> step is Err && final(flow)@.phase == RecvPhase::Ended,
        answer is Ok <==> paired is Ok,
        final(greeting)@.phase == if answer is Ok {
            RecvPhase::Pair
        } else {
            RecvPhase::Ended
        },
{
}

/// No offer is waited for before the pairing is confirmed: only a confirmation leads on, with a
/// session that is paired.
pub proof fn only_a_confirmed_pairing_leads_on(
    flow: &mut ReceiveFlow,
    outcome: Paired,
    step: Result<RecvStep, RecvError>,
)
    requires
        call_ensures(ReceiveFlow::paired, (flow, outcome), step),
    ensures
        final(flow)@.phase == RecvPhase::AwaitOffer <==> outcome is Confirmed,
        outcome is Confirmed ==> final(flow)@.session == SessionPhase::Paired && (step matches Ok(
            RecvStep::Continue,
        )),
        outcome is Interrupted ==> ends_cancelled(step, true),
        outcome matches Paired::Failed(error) ==> step == Err::<RecvStep, _>(
            RecvError::Pair(error),
        ),
{
}

/// The offer that came is the one that is decided about; anything else ends the flow.
pub proof fn the_offer_that_came_is_decided_about(
    flow: &mut ReceiveFlow,
    outcome: Offered,
    step: Result<RecvStep, RecvError>,
)
    requires
        call_ensures(ReceiveFlow::offered, (flow, outcome), step),
    ensures
        outcome matches Offered::Message(ControlMessage::Offer { files, total_bytes }) ==> {
            &&& final(flow)@.phase == RecvPhase::Decide
            &&& final(flow)@.files == files@
            &&& final(flow)@.total == total_bytes
            &&& step matches Ok(RecvStep::Continue)
        },
        !(outcome matches Offered::Message(ControlMessage::Offer { .. })) ==> final(flow)@.phase
            == RecvPhase::Ended,
        outcome is Interrupted ==> ends_cancelled(step, true) && final(flow)@.session
            == SessionPhase::Cancelled,
        outcome matches Offered::Message(other) && !(other is Offer) ==> step is Err,
        outcome is Failed ==> step is Err,
{
}

/// Nothing is downloaded before the acceptance has gone out.
pub proof fn the_acceptance_goes_out_first(
    flow: &mut ReceiveFlow,
    outcome: Result<(), SessionError>,
    step: Result<(), RecvError>,
)
    requires
        call_ensures(ReceiveFlow::accept_sent, (flow, outcome), step),
    ensures
        outcome is Ok <==> step is Ok,
        outcome is Ok <==> final(flow)@.phase == RecvPhase::Download,
        outcome is Ok ==> final(flow)@.session == SessionPhase::Transferring,
        outcome is Err ==> final(flow)@.phase == RecvPhase::Ended,
{
}

/// The sender is told what was received and skipped, number for number, and the user is shown the
/// same; a failed download is a cancellation to the sender.
pub proof fn the_result_is_reported_as_it_is(
    flow: &mut ReceiveFlow,
    result: TransferResult,
    step: (ControlMessage, Result<(), RecvError>),
    closing: &mut ReceiveFlow,
    end: Result<ReceiveOutcome, RecvError>,
)
    requires
        call_ensures(ReceiveFlow::downloaded, (flow, Ok::<_, ReceiveError>(result)), step),
        call_ensures(ReceiveFlow::closed, (closing, Ok::<(), PairError>(())), end),
        final(flow)@ == old(closing)@,
        result.files <= u32::MAX,
        result.skipped_files <= u32::MAX,
    ensures
        step.1 is Ok,
        step.0 matches ControlMessage::Result { bytes, files, skipped_bytes, skipped_files }
            && bytes == result.bytes && files == result.files && skipped_bytes
            == result.skipped_bytes && skipped_files == result.skipped_files,
        end matches Ok(ReceiveOutcome::Completed { bytes, files, skipped_files }) && bytes
            == result.bytes && files == result.files && skipped_files == result.skipped_files,
        final(closing)@.session == SessionPhase::Done,
{
}

/// A download that fails cancels the session and tells the sender so.
pub proof fn a_failed_download_cancels(
    flow: &mut ReceiveFlow,
    error: ReceiveError,
    step: (ControlMessage, Result<(), RecvError>),
)
    requires
        call_ensures(
            ReceiveFlow::downloaded,
            (flow, Err::<TransferResult, _>(error)),
            step,
        ),
    ensures
        step.0 is Cancel,
        step.1 == Err::<(), _>(RecvError::Receive(error)),
        final(flow)@.session == SessionPhase::Cancelled,
        final(flow)@.phase == RecvPhase::Ended,
{
}

/// A refusal that the sender has acknowledged ends the flow as declined; a sender that does not
/// close the stream is an error.
pub proof fn a_refusal_ends_as_declined(
    flow: &mut ReceiveFlow,
    outcome: Result<(), PairError>,
    end: Result<ReceiveOutcome, RecvError>,
)
    requires
        call_ensures(ReceiveFlow::closed, (flow, outcome), end),
    ensures
        outcome is Ok && old(flow)@.phase == RecvPhase::AwaitCloseDeclined ==> end == Ok::<
            _,
            RecvError,
        >(ReceiveOutcome::Declined),
        outcome is Err ==> end is Err,
        final(flow)@.phase == RecvPhase::Ended,
{
}

/// A result satisfies the sender exactly if received and skipped together are everything that was
/// offered, in bytes and in files.
pub proof fn a_result_must_account_for_everything(
    flow: &mut SendFlow,
    bytes: u64,
    files: u32,
    skipped_bytes: u64,
    skipped_files: u32,
    step: Result<SendStep, SendError>,
)
    requires
        call_ensures(
            SendFlow::transferred,
            (
                flow,
                Awaited::Message(
                    ControlMessage::Result { bytes, files, skipped_bytes, skipped_files },
                ),
            ),
            step,
        ),
    ensures
        step is Ok <==> bytes + skipped_bytes == old(flow).total_bytes() && files + skipped_files
            == old(flow).count(),
        step is Ok ==> final(flow).session_phase() == SessionPhase::Done && (step matches Ok(
            SendStep::End {
                last_words: None,
                outcome: SendOutcome::Completed {
                    bytes: b,
                    files: f,
                    skipped_bytes: sb,
                    skipped_files: sf,
                },
            },
        ) && b == bytes && f == files && sb == skipped_bytes && sf == skipped_files),
        step is Err ==> final(flow).session_phase() != SessionPhase::Done && (step matches Err(
            SendError::ResultMismatch { expected_bytes, expected_files, got_bytes, got_files },
        ) && expected_bytes == old(flow).total_bytes() && expected_files == old(flow).count()
            && got_bytes == bytes && got_files == files),
        final(flow).at() == SendPhase::Ended,
{
}

/// The transfer starts exactly if the offer is accepted; a refusal comes out with its reason, a
/// cancellation on either side cancels, and of an own interruption the receiver is told.
pub proof fn only_an_acceptance_starts_the_transfer(
    flow: &mut SendFlow,
    outcome: Awaited,
    step: Result<SendStep, SendError>,
)
    requires
        call_ensures(SendFlow::answered, (flow, outcome), step),
    ensures
        final(flow).at() == SendPhase::Transfer <==> outcome matches Awaited::Message(
            ControlMessage::Accept,
        ),
        outcome matches Awaited::Message(ControlMessage::Accept) ==> step matches Ok(
            SendStep::Continue,
        ),
        outcome matches Awaited::Message(ControlMessage::Decline { reason }) ==> (step matches Ok(
            SendStep::End { last_words: None, outcome: SendOutcome::Declined { reason: r } },
        ) && r == reason),
        outcome matches Awaited::Message(ControlMessage::Cancel) ==> (step matches Ok(
            SendStep::End { last_words: None, outcome: SendOutcome::Cancelled },
        ) && final(flow).session_phase() == SessionPhase::Cancelled),
        outcome is Interrupted ==> (step matches Ok(
            SendStep::End {
                last_words: Some(ControlMessage::Cancel),
                outcome: SendOutcome::Cancelled,
            },
        ) && final(flow).session_phase() == SessionPhase::Cancelled),
        outcome is Failed ==> step is Err,
        outcome matches Awaited::Message(ControlMessage::Hello { .. }) ==> step is Err,
        outcome matches Awaited::Message(ControlMessage::Offer { .. }) ==> step is Err,
        outcome matches Awaited::Message(ControlMessage::Result { .. }) ==> step is Err,
{
}

/// A transfer that is interrupted, cancelled or falls silent is never completed.
pub proof fn only_a_result_completes_the_transfer(
    flow: &mut SendFlow,
    outcome: Awaited,
    step: Result<SendStep, SendError>,
)
    requires
        call_ensures(SendFlow::transferred, (flow, outcome), step),
        !(outcome matches Awaited::Message(ControlMessage::Result { .. })),
    ensures
        !(step matches Ok(SendStep::End { outcome: SendOutcome::Completed { .. }, .. })),
        final(flow).session_phase() != SessionPhase::Done || old(flow).session_phase()
            == SessionPhase::Done,
        outcome is Interrupted ==> (step matches Ok(
            SendStep::End {
                last_words: Some(ControlMessage::Cancel),
                outcome: SendOutcome::Cancelled,
            },
        )),
        outcome matches Awaited::Message(ControlMessage::Cancel) ==> (step matches Ok(
            SendStep::End { last_words: None, outcome: SendOutcome::Cancelled },
        )),
        outcome is Failed ==> step is Err,
        outcome matches Awaited::Message(ControlMessage::Accept) ==> step is Err,
        final(flow).at() == SendPhase::Ended,
{
}

/// The hexadecimal digits of a byte, the high half first.
pub open spec fn two_digits(byte: u8, high: char, low: char) -> bool {
    &&& digit_of(byte as int / 16, high)
    &&& digit_of(byte as int % 16, low)
}

/// Whether a character is the lower-case hexadecimal digit of a value.
pub open spec fn digit_of(value: int, digit: char) -> bool {
    ||| value < 10 && digit as u32 == '0' as u32 + value
    ||| value >= 10 && digit as u32 == 'a' as u32 + value - 10
}

/// What is offered is what was prepared: as many files, each under its name, with its size and
/// with its hash in hexadecimal digits.
pub proof fn the_offer_describes_what_was_prepared(
    prepared: &Vec<PreparedFile>,
    files: Vec<FileMeta>,
    i: int,
    b: int,
)
    requires
        call_ensures(describe_files, (prepared,), files),
        0 <= i < prepared@.len(),
        0 <= b < 32,
    ensures
        files@.len() == prepared@.len(),
        files@[i].name@ == prepared@[i].name@,
        files@[i].size == prepared@[i].size,
        files@[i].hash@.len() == 64,
        two_digits(prepared@[i].hash@[b], files@[i].hash@[2 * b], files@[i].hash@[2 * b + 1]),
{
    assert(files@[i].hash@ == crate::pairing::handshake::hex_text(prepared@[i].hash@));
    assert((2 * b) / 2 == b && (2 * b) % 2 == 0 && (2 * b + 1) / 2 == b && (2 * b + 1) % 2 == 1);
}

/// A prepared transfer is what the flow offers from then on: its files, its total, its number of
/// files and its ticket.
pub proof fn the_flow_offers_what_was_prepared(
    flow: &mut SendFlow,
    prepared: PreparedTransfer,
    step: Result<(), SendError>,
    pairing: &mut SendFlow,
    offer: Result<ControlMessage, SendError>,
    i: int,
)
    requires
        call_ensures(
            SendFlow::prepared,
            (flow, Ok::<_, crate::transfer::send::SendError>(prepared)),
            step,
        ),
        call_ensures(SendFlow::paired, (pairing, Ok::<(), PairError>(())), offer),
        final(flow).offered() == old(pairing).offered(),
        final(flow).total_bytes() == old(pairing).total_bytes(),
        prepared.files@.len() <= u32::MAX,
        0 <= i < prepared.files@.len(),
    ensures
        step is Ok,
        final(flow).left_ticket() == prepared.ticket@,
        final(flow).count() == prepared.files@.len(),
        offer matches Ok(ControlMessage::Offer { files, total_bytes }) && files@.len()
            == prepared.files@.len() && files@[i].name@ == prepared.files@[i].name@
            && files@[i].size == prepared.files@[i].size && total_bytes == prepared.total_bytes,
        final(pairing).session_phase() == SessionPhase::Paired,
        final(pairing).at() == SendPhase::AwaitAnswer,
{
}

/// Nothing is offered to a peer that could not pair.
pub proof fn no_offer_without_pairing(
    flow: &mut SendFlow,
    error: PairError,
    offer: Result<ControlMessage, SendError>,
)
    requires
        call_ensures(SendFlow::paired, (flow, Err::<(), _>(error)), offer),
    ensures
        offer == Err::<ControlMessage, _>(SendError::Pair(error)),
        final(flow).at() == SendPhase::Ended,
{
}

/// The code that is shown is the nameplate, a hyphen and the words that the flow pairs with; there
/// is one exactly for a nameplate from 1 to 9999.
pub proof fn the_shown_code_is_nameplate_and_words(
    flow: &mut SendFlow,
    allocation: Allocation,
    rng: &mut rand::rngs::StdRng,
    code: Result<String, SendError>,
    plate: String,
)
    requires
        call_ensures(SendFlow::allocated, (flow, Ok::<_, RvError>(allocation), rng), code),
        call_ensures(crate::text::decimal_string, (allocation.nameplate as u64,), plate),
    ensures
        code is Ok <==> 1 <= allocation.nameplate <= 9999,
        code matches Ok(text) ==> text@ == plate@ + seq!['-'] + final(flow).secret(),
        code is Ok ==> final(flow).at() == SendPhase::Publish,
        code is Err ==> final(flow).at() == SendPhase::Ended,
        final(flow).left_ticket() == old(flow).left_ticket(),
{
    if let Ok(text) = code {
        let shown = choose|shown: CodeView|
            {
                &&& #[trigger] shown.valid()
                &&& shown.nameplate == allocation.nameplate
                &&& text@ == shown.text()
                &&& final(flow).secret() == shown.password()
            };
        assert(text@ =~= plate@ + seq!['-'] + final(flow).secret());
    }
}

/// The sender waits for a receiver once its ticket is out, takes the first that dials in, and
/// answers a hello with its own.
pub proof fn the_sender_waits_and_greets(
    publishing: &mut SendFlow,
    out: Result<(), RvError>,
    published: Result<(), SendError>,
    waiting: &mut SendFlow,
    dial: DialIn,
    step: Result<SendStep, SendError>,
    greeting: &mut SendFlow,
    message: ControlMessage,
    answer: Result<ControlMessage, SendError>,
)
    requires
        call_ensures(SendFlow::published, (publishing, out), published),
        call_ensures(SendFlow::dialed_in, (waiting, dial), step),
        call_ensures(SendFlow::greeted, (greeting, Ok::<_, SessionError>(message)), answer),
    ensures
        out is Ok <==> published is Ok,
        out is Ok <==> final(publishing).at() == SendPhase::AwaitReceiver,
        final(waiting).at() == SendPhase::AcceptStream <==> dial is Connected,
        dial is Connected ==> (step matches Ok(SendStep::Continue)),
        dial is Interrupted ==> (step matches Ok(
            SendStep::End { last_words: None, outcome: SendOutcome::Cancelled },
        )),
        dial is TimedOut || dial is Closed ==> step is Err,
        final(greeting).at() == SendPhase::Pair <==> message is Hello,
        message is Hello ==> (answer matches Ok(ControlMessage::Hello { version }) && version == 1),
        !(message is Hello) ==> answer is Err,
{
}

/// The bar shows what was served since the transfer began, never more than there is to send.
pub proof fn the_bar_shows_what_was_served(served: u64, baseline: u64, total: u64, shown: u64)
    requires
        call_ensures(progress_position, (served, baseline, total), shown),
    ensures
        baseline <= served && served - baseline <= total ==> shown == served - baseline,
        baseline <= served && served - baseline > total ==> shown == total,
        served < baseline ==> shown == 0,
{
}

/// A hello of another version is refused, a payload that is no message is refused with the
/// reason, and every other message comes out as it is.
pub proof fn only_the_own_version_is_spoken(
    parsed: Result<ControlMessage, String>,
    message: Result<ControlMessage, SessionError>,
)
    requires
        call_ensures(message_read, (parsed,), message),
    ensures
        parsed is Err ==> message is Err,
        parsed matches Ok(ControlMessage::Hello { version }) ==> (message is Ok <==> version == 1),
        parsed matches Ok(ControlMessage::Hello { version }) ==> (version != 1 ==> (message
            matches Err(SessionError::VersionMismatch { got, expected }) && got == version
            && expected == 1)),
        parsed matches Ok(m) && !(m is Hello) ==> message is Ok,
        message matches Ok(m) ==> parsed == Ok::<_, String>(m),
{
}

/// A stream that ends or fails has been closed by the peer, one that is silent for too long has
/// not, and bytes that still come decide nothing.
pub proof fn closing_acknowledges(
    read: CloseRead,
    what: &'static str,
    outcome: Option<Result<(), PairError>>,
)
    requires
        call_ensures(peer_closed, (read, what), outcome),
    ensures
        read is Bytes <==> outcome is None,
        read is Ended || read is Failed ==> outcome == Some(Ok::<(), PairError>(())),
        read is TimedOut ==> outcome == Some(Err::<(), _>(PairError::Hung(what))),
{
}

/// A session goes from created over pairing, paired and transferring to done, one step at a time;
/// from each of these it can be cancelled or fail, and from its ends it goes nowhere. A refused
/// event changes nothing.
pub proof fn a_session_goes_step_by_step(
    session: &mut Session,
    event: Transition,
    next: Result<SessionPhase, TransitionError>,
)
    requires
        call_ensures(Session::transition, (session, event), next),
    ensures
        ({
            let from = old(session).at();
            let over = from is Done || from is Cancelled || from is Failed;
            &&& over ==> next is Err
            &&& event is StartPairing ==> (next is Ok <==> from is Created)
            &&& event is PairConfirmed ==> (next is Ok <==> from is PendingPair)
            &&& event is TransferStarted ==> (next is Ok <==> from is Paired)
            &&& event is Completed ==> (next is Ok <==> from is Transferring)
            &&& event is Cancelled || event is Failed ==> (next is Ok <==> !over)
            &&& next matches Ok(to) ==> to == match event {
                Transition::StartPairing => SessionPhase::PendingPair,
                Transition::PairConfirmed => SessionPhase::Paired,
                Transition::TransferStarted => SessionPhase::Transferring,
                Transition::Completed => SessionPhase::Done,
                Transition::Cancelled => SessionPhase::Cancelled,
                Transition::Failed => SessionPhase::Failed,
            }
            &&& next matches Ok(to) ==> final(session).at() == to
            &&& next matches Err(error) ==> final(session).at() == from && error.from == from
                && error.event == event
        }),
{
}

/// Cancelling signals the watchers of a session that is not over, and only that.
pub proof fn cancelling_signals_once(
    session: &mut Session,
    next: Result<SessionPhase, TransitionError>,
)
    requires
        call_ensures(Session::cancel, (session,), next),
    ensures
        ({
            let from = old(session).at();
            let over = from is Done || from is Cancelled || from is Failed;
            &&& next is Ok <==> !over
            &&& next is Ok ==> final(session).signalled() && final(session).at() is Cancelled
            &&& next is Err ==> *final(session) == *old(session)
        }),
{
}

/// In a race a cancellation wins, also over a value that has come.
pub proof fn cancellation_wins_the_race(
    cancelled: bool,
    value: Option<u64>,
    outcome: Option<Race<u64>>,
)
    requires
        call_ensures(Race::<u64>::settle, (cancelled, value), outcome),
    ensures
        cancelled ==> (outcome matches Some(Race::Cancelled)),
        !cancelled && value is None ==> outcome is None,
        !cancelled ==> (value matches Some(v) ==> (outcome matches Some(Race::Value(w)) && w == v)),
{
}

/// The output dir is used once it is absolute, and the sender is dialed for as long as it answers:
/// only a connection leads on.
pub proof fn only_a_connection_leads_on(
    resolving: &mut ReceiveFlow,
    path: Result<String, String>,
    resolved: Result<(), RecvError>,
    dialing: &mut ReceiveFlow,
    outcome: DialOut,
    step: Result<RecvStep, RecvError>,
)
    requires
        call_ensures(ReceiveFlow::output_resolved, (resolving, path), resolved),
        call_ensures(ReceiveFlow::dialed, (dialing, outcome), step),
    ensures
        path is Ok <==> resolved is Ok,
        path matches Ok(dir) ==> final(resolving)@.output == dir@ && final(resolving)@.phase
            == RecvPhase::Dial,
        path is Err ==> final(resolving)@.phase == RecvPhase::Ended,
        final(dialing)@.phase == RecvPhase::OpenStream <==> outcome is Connected,
        outcome is Connected ==> (step matches Ok(RecvStep::Continue)),
        outcome is Interrupted ==> ends_cancelled(step, false),
        outcome is TimedOut ==> step is Err,
        outcome matches DialOut::Refused(reason) ==> step == Err::<RecvStep, _>(
            RecvError::Pair(PairError::Io(reason)),
        ),
{
}

/// Without a code there is nothing to claim.
pub proof fn no_code_ends_the_flow(
    flow: &mut ReceiveFlow,
    input: CodeInput,
    step: Result<RecvStep, RecvError>,
)
    requires
        call_ensures(ReceiveFlow::code_entered, (flow, input), step),
        !(input is Given),
    ensures
        final(flow)@.phase == RecvPhase::Ended,
        input is Missing ==> step == Err::<RecvStep, _>(RecvError::NoCode),
        input is Interrupted ==> ends_cancelled(step, false),
{
}

/// A new receive asks for its code first, and puts its files into the named directory, or else
/// into the current one; whether to accept is as decided beforehand.
pub proof fn a_receive_starts_with_its_code(
    output: Option<String>,
    preset: Option<bool>,
    flow: ReceiveFlow,
    asks: bool,
)
    requires
        call_ensures(ReceiveFlow::new, (output, preset), flow),
        call_ensures(ReceiveFlow::asks, (&flow,), asks),
    ensures
        flow@.phase == RecvPhase::Code,
        flow@.preset == preset,
        asks <==> preset is None,
        output matches Some(dir) ==> flow@.output == dir@,
        output is None ==> flow@.output == "."@,
{
}

/// A receiver that opens no stream is not waited for for ever.
pub proof fn the_sender_needs_a_stream(
    flow: &mut SendFlow,
    outcome: StreamOpen,
    step: Result<(), SendError>,
)
    requires
        call_ensures(SendFlow::stream_opened, (flow, outcome), step),
    ensures
        outcome is Opened <==> step is Ok,
        final(flow).at() == if outcome is Opened {
            SendPhase::Greet
        } else {
            SendPhase::Ended
        },
{
}

/// A hello is answered with a hello of this version, and nothing else is.
pub proof fn a_hello_is_answered_with_a_hello(
    message: ControlMessage,
    answer: Result<ControlMessage, PairError>,
)
    requires
        call_ensures(answer_hello, (message,), answer),
    ensures
        answer is Ok <==> message is Hello,
        answer matches Ok(m) ==> (m matches ControlMessage::Hello { version } && version == 1),
{
}

/// A result matches exactly if received and skipped add up to what there was.
pub proof fn a_result_matches_if_it_adds_up(
    bytes: u64,
    files: u32,
    skipped_bytes: u64,
    skipped_files: u32,
    total: u64,
    count: u32,
    yes: bool,
)
    requires
        call_ensures(
            result_matches,
            (bytes, files, skipped_bytes, skipped_files, total, count),
            yes,
        ),
    ensures
        yes <==> bytes + skipped_bytes == total && files + skipped_files == count,
{
}

/// Whether a receive flow still knows what it knew: where the files go, what was decided
/// beforehand, the code and the ticket.
pub open spec fn remembers(after: RecvView, before: RecvView) -> bool {
    &&& after.preset == before.preset
    &&& after.output == before.output
    &&& after.nameplate == before.nameplate
    &&& after.words == before.words
    &&& after.ticket == before.ticket
}

/// What a receive flow knows stays from the claim to the download.
pub proof fn a_receive_forgets_nothing(
    reading: &mut ReceiveFlow,
    is_ticket: bool,
    read: Result<(), RecvError>,
    starting: &mut ReceiveFlow,
    engine: Result<(), crate::transfer::engine::Error>,
    relay: &RelayMode,
    started: Result<(), RecvError>,
    awaiting: &mut ReceiveFlow,
    contacted: bool,
    awaited: Result<(), RecvError>,
    dialing: &mut ReceiveFlow,
    dial: DialOut,
    dialed: Result<RecvStep, RecvError>,
    opening: &mut ReceiveFlow,
    stream: Result<(), String>,
    opened: Result<RecvStep, RecvError>,
    greeting: &mut ReceiveFlow,
    hello: Result<ControlMessage, SessionError>,
    greeted: Result<(), RecvError>,
    pairing: &mut ReceiveFlow,
    pair: Paired,
    paired: Result<RecvStep, RecvError>,
    hearing: &mut ReceiveFlow,
    offer: Offered,
    offered: Result<RecvStep, RecvError>,
    deciding: &mut ReceiveFlow,
    answer: Answer,
    decided: Result<RecvStep, RecvError>,
    accepting: &mut ReceiveFlow,
    sent: Result<(), SessionError>,
    accepted: Result<(), RecvError>,
)
    requires
        call_ensures(ReceiveFlow::ticket_read, (reading, is_ticket), read),
        call_ensures(ReceiveFlow::engine_started, (starting, engine, relay), started),
        call_ensures(ReceiveFlow::relay_awaited, (awaiting, contacted), awaited),
        call_ensures(ReceiveFlow::dialed, (dialing, dial), dialed),
        call_ensures(ReceiveFlow::stream_opened, (opening, stream), opened),
        call_ensures(ReceiveFlow::greeted, (greeting, hello), greeted),
        call_ensures(ReceiveFlow::paired, (pairing, pair), paired),
        call_ensures(ReceiveFlow::offered, (hearing, offer), offered),
        call_ensures(ReceiveFlow::decided, (deciding, answer), decided),
        call_ensures(ReceiveFlow::accept_sent, (accepting, sent), accepted),
    ensures
        remembers(final(reading)@, old(reading)@),
        remembers(final(starting)@, old(starting)@),
        remembers(final(awaiting)@, old(awaiting)@),
        remembers(final(dialing)@, old(dialing)@),
        remembers(final(opening)@, old(opening)@),
        remembers(final(greeting)@, old(greeting)@),
        remembers(final(pairing)@, old(pairing)@),
        remembers(final(hearing)@, old(hearing)@),
        remembers(final(deciding)@, old(deciding)@),
        remembers(final(accepting)@, old(accepting)@),
        final(deciding)@.files == old(deciding)@.files && final(deciding)@.total
            == old(deciding)@.total,
{
}

/// A receive that fails says what failed, and ends there.
pub proof fn a_receive_fails_over_what_failed(
    reading: &mut ReceiveFlow,
    read: Result<(), RecvError>,
    starting: &mut ReceiveFlow,
    engine: crate::transfer::engine::Error,
    relay: &RelayMode,
    started: Result<(), RecvError>,
    resolving: &mut ReceiveFlow,
    why: String,
    resolved: Result<(), RecvError>,
    dialing: &mut ReceiveFlow,
    dialed: Result<RecvStep, RecvError>,
    opening: &mut ReceiveFlow,
    opened: Result<RecvStep, RecvError>,
    error: SessionError,
    greeting: &mut ReceiveFlow,
    greeted: Result<(), RecvError>,
    hearing: &mut ReceiveFlow,
    offered: Result<RecvStep, RecvError>,
    accepting: &mut ReceiveFlow,
    accepted: Result<(), RecvError>,
    sending: &mut ReceiveFlow,
    not_sent: RecvError,
    closing: &mut ReceiveFlow,
    open: PairError,
    closed: Result<ReceiveOutcome, RecvError>,
)
    requires
        call_ensures(ReceiveFlow::ticket_read, (reading, false), read),
        call_ensures(ReceiveFlow::engine_started, (starting, Err::<(), _>(engine), relay), started),
        call_ensures(ReceiveFlow::output_resolved, (resolving, Err::<String, _>(why)), resolved),
        call_ensures(ReceiveFlow::dialed, (dialing, DialOut::TimedOut), dialed),
        call_ensures(ReceiveFlow::stream_opened, (opening, Err::<(), _>(why)), opened),
        call_ensures(ReceiveFlow::greeted, (greeting, Err::<ControlMessage, _>(error)), greeted),
        call_ensures(ReceiveFlow::offered, (hearing, Offered::Failed(error)), offered),
        call_ensures(ReceiveFlow::accept_sent, (accepting, Err::<(), _>(error)), accepted),
        call_ensures(ReceiveFlow::not_sent, (sending, error), not_sent),
        call_ensures(ReceiveFlow::closed, (closing, Err::<(), _>(open)), closed),
    ensures
        read matches Err(RecvError::Ticket(ticket)) && ticket@ == old(reading)@.ticket,
        started == Err::<(), _>(RecvError::Engine(engine)),
        final(starting)@.phase == RecvPhase::Ended,
        resolved matches Err(RecvError::Receive(ReceiveError::TargetDirResolve { path, source }))
            && path@ == old(resolving)@.output && source@ == why@,
        dialed matches Err(RecvError::Hung(what)) && what@ == "connect to sender"@,
        opened == Err::<RecvStep, _>(RecvError::Connection(why)),
        greeted == Err::<(), _>(RecvError::Control(error)),
        offered == Err::<RecvStep, _>(RecvError::Control(error)),
        accepted == Err::<(), _>(RecvError::Control(error)),
        not_sent == RecvError::Control(error),
        final(sending)@.phase == RecvPhase::Ended,
        closed == Err::<ReceiveOutcome, _>(RecvError::Pair(open)),
{
}

/// A message that is no offer ends a receive that waits for one, and is named.
pub proof fn only_an_offer_is_expected(
    flow: &mut ReceiveFlow,
    message: ControlMessage,
    step: Result<RecvStep, RecvError>,
)
    requires
        call_ensures(ReceiveFlow::offered, (flow, Offered::Message(message)), step),
        !(message is Offer),
    ensures
        step == Err::<RecvStep, _>(RecvError::UnexpectedMessage(message)),
{
}

/// Whether a send flow still knows what it knew: the files and their total, the ticket and the
/// words.
pub open spec fn holds_the_same(after: SendFlow, before: SendFlow) -> bool {
    &&& after.offered() == before.offered()
    &&& after.total_bytes() == before.total_bytes()
    &&& after.count() == before.count()
    &&& after.left_ticket() == before.left_ticket()
    &&& after.secret() == before.secret()
}

/// What a send flow knows stays from the code to the offer, and the files are offered once.
pub proof fn a_send_forgets_nothing(
    publishing: &mut SendFlow,
    out: Result<(), RvError>,
    published: Result<(), SendError>,
    waiting: &mut SendFlow,
    dial: DialIn,
    dialed: Result<SendStep, SendError>,
    opening: &mut SendFlow,
    stream: StreamOpen,
    opened: Result<(), SendError>,
    greeting: &mut SendFlow,
    hello: Result<ControlMessage, SessionError>,
    greeted: Result<ControlMessage, SendError>,
    pairing: &mut SendFlow,
    offer: ControlMessage,
)
    requires
        call_ensures(SendFlow::published, (publishing, out), published),
        call_ensures(SendFlow::dialed_in, (waiting, dial), dialed),
        call_ensures(SendFlow::stream_opened, (opening, stream), opened),
        call_ensures(SendFlow::greeted, (greeting, hello), greeted),
        call_ensures(
            SendFlow::paired,
            (pairing, Ok::<(), PairError>(())),
            Ok::<_, SendError>(offer),
        ),
    ensures
        holds_the_same(*final(publishing), *old(publishing)),
        holds_the_same(*final(waiting), *old(waiting)),
        holds_the_same(*final(opening), *old(opening)),
        holds_the_same(*final(greeting), *old(greeting)),
        offer matches ControlMessage::Offer { files, total_bytes } && files@
            == old(pairing).offered() && total_bytes == old(pairing).total_bytes(),
        final(pairing).total_bytes() == old(pairing).total_bytes(),
        final(pairing).count() == old(pairing).count(),
        final(pairing).left_ticket() == old(pairing).left_ticket(),
        final(pairing).secret() == old(pairing).secret(),
{
}

/// A send that fails says what failed.
pub proof fn a_send_fails_over_what_failed(
    preparing: &mut SendFlow,
    fault: crate::transfer::send::SendError,
    prepared: Result<(), SendError>,
    rendezvous: RvError,
    publishing: &mut SendFlow,
    published: Result<(), SendError>,
    waiting: &mut SendFlow,
    late: Result<SendStep, SendError>,
    closed: &mut SendFlow,
    gone: Result<SendStep, SendError>,
    opening: &mut SendFlow,
    slow: Result<(), SendError>,
    refusing: &mut SendFlow,
    why: String,
    refused: Result<(), SendError>,
    greeting: &mut SendFlow,
    error: SessionError,
    greeted: Result<ControlMessage, SendError>,
    answering: &mut SendFlow,
    silence: PairError,
    answered: Result<SendStep, SendError>,
    transferring: &mut SendFlow,
    transferred: Result<SendStep, SendError>,
    sending: &mut SendFlow,
    not_sent: SendError,
)
    requires
        call_ensures(SendFlow::prepared, (preparing, Err::<PreparedTransfer, _>(fault)), prepared),
        call_ensures(SendFlow::published, (publishing, Err::<(), _>(rendezvous)), published),
        call_ensures(SendFlow::dialed_in, (waiting, DialIn::TimedOut), late),
        call_ensures(SendFlow::dialed_in, (closed, DialIn::Closed), gone),
        call_ensures(SendFlow::stream_opened, (opening, StreamOpen::TimedOut), slow),
        call_ensures(SendFlow::stream_opened, (refusing, StreamOpen::Failed(why)), refused),
        call_ensures(SendFlow::greeted, (greeting, Err::<ControlMessage, _>(error)), greeted),
        call_ensures(SendFlow::answered, (answering, Awaited::Failed(silence)), answered),
        call_ensures(SendFlow::transferred, (transferring, Awaited::Failed(silence)), transferred),
        call_ensures(SendFlow::not_sent, (sending, error), not_sent),
    ensures
        prepared == Err::<(), _>(SendError::Prepare(fault)),
        final(preparing).at() == SendPhase::Ended,
        published == Err::<(), _>(SendError::Rv(rendezvous)),
        final(publishing).at() == SendPhase::Ended,
        late matches Err(SendError::Hung(what)) && what@
            == "receiver to dial in with the pairing code"@,
        gone matches Err(SendError::AcceptorClosed),
        slow matches Err(SendError::Hung(what)) && what@ == "receiver to open the control stream"@,
        refused == Err::<(), _>(SendError::Connection(why)),
        greeted == Err::<ControlMessage, _>(SendError::Pair(PairError::Control(error))),
        answered == Err::<SendStep, _>(SendError::Pair(silence)),
        transferred == Err::<SendStep, _>(SendError::Pair(silence)),
        not_sent == SendError::Control(error),
        final(sending).at() == SendPhase::Ended,
{
}

} // verus!
