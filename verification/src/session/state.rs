//! The phases of a session: created, pending pair, paired, transferring, and then done, cancelled
//! or failed.
use vstd::prelude::*;

verus! {

broadcast use vstd::string::group_string_axioms;

/// Phases a session moves through over its lifetime.
#[derive(Debug, Clone, Copy, PartialEq, Eq, Structural)]
pub enum SessionPhase {
    /// Session constructed, nothing started yet.
    Created,
    /// Pairing handshake in flight.
    PendingPair,
    /// Pairing confirmed; negotiating the transfer.
    Paired,
    /// Bytes are flowing.
    Transferring,
    /// Transfer finished successfully.
    Done,
    /// Transfer aborted, locally or by the peer.
    Cancelled,
    /// Transfer failed.
    Failed,
}

/// Events that drive a session between phases.
#[derive(Debug, Clone, Copy, PartialEq, Eq, Structural)]
pub enum Transition {
    /// Pairing handshake begins.
    StartPairing,
    /// Key confirmation succeeded.
    PairConfirmed,
    /// Transfer negotiation done, bytes about to flow.
    TransferStarted,
    /// All bytes transferred and verified.
    Completed,
    /// Either side aborted.
    Cancelled,
    /// Fatal error.
    Failed,
}

/// A transition that is not allowed from the current phase.
#[derive(Debug, Clone, Copy, PartialEq, Eq, Structural)]
pub struct TransitionError {
    pub from: SessionPhase,
    pub event: Transition,
}

impl SessionPhase {
    /// Whether the session is over.
    pub open spec fn terminal(self) -> bool {
        self == SessionPhase::Done || self == SessionPhase::Cancelled || self
            == SessionPhase::Failed
    }

    /// The phase that `event` leads to, if it is allowed.
    pub open spec fn next(self, event: Transition) -> Option<SessionPhase> {
        match (self, event) {
            (SessionPhase::Created, Transition::StartPairing) => Some(SessionPhase::PendingPair),
            (SessionPhase::PendingPair, Transition::PairConfirmed) => Some(SessionPhase::Paired),
            (SessionPhase::Paired, Transition::TransferStarted) => Some(
                SessionPhase::Transferring,
            ),
            (SessionPhase::Transferring, Transition::Completed) => Some(SessionPhase::Done),
            (_, Transition::Cancelled) => if self.terminal() {
                None
            } else {
                Some(SessionPhase::Cancelled)
            },
            (_, Transition::Failed) => if self.terminal() {
                None
            } else {
                Some(SessionPhase::Failed)
            },
            _ => None,
        }
    }

    /// How far along the phase is: the path to a transfer in order, and every end behind it.
    pub open spec fn rank(self) -> int {
        match self {
            SessionPhase::Created => 0,
            SessionPhase::PendingPair => 1,
            SessionPhase::Paired => 2,
            SessionPhase::Transferring => 3,
            SessionPhase::Done | SessionPhase::Cancelled | SessionPhase::Failed => 4,
        }
    }

    /// The phase's name in lower case, with underscores.
    pub open spec fn name(self) -> Seq<char> {
        match self {
            SessionPhase::Created => "created"@,
            SessionPhase::PendingPair => "pending_pair"@,
            SessionPhase::Paired => "paired"@,
            SessionPhase::Transferring => "transferring"@,
            SessionPhase::Done => "done"@,
            SessionPhase::Cancelled => "cancelled"@,
            SessionPhase::Failed => "failed"@,
        }
    }

    /// Whether the session is over: done, cancelled and failed are final.
    pub fn is_terminal(self) -> (yes: bool)
        ensures
            yes == self.terminal(),
    {
        match self {
            SessionPhase::Done | SessionPhase::Cancelled | SessionPhase::Failed => true,
            _ => false,
        }
    }

    /// Applies `event`. An event that is not allowed, which is every event in a final phase, is
    /// refused by name.
    pub fn transition(self, event: Transition) -> (next: Result<Self, TransitionError>)
        ensures
            match self.next(event) {
                Some(phase) => next == Ok::<_, TransitionError>(phase),
                None => next == Err::<Self, _>((TransitionError { from: self, event })),
            },
    {
        match (self, event) {
            (SessionPhase::Created, Transition::StartPairing) => Ok(SessionPhase::PendingPair),
            (SessionPhase::PendingPair, Transition::PairConfirmed) => Ok(SessionPhase::Paired),
            (SessionPhase::Paired, Transition::TransferStarted) => Ok(SessionPhase::Transferring),
            (SessionPhase::Transferring, Transition::Completed) => Ok(SessionPhase::Done),
            (
                SessionPhase::Created
                | SessionPhase::PendingPair
                | SessionPhase::Paired
                | SessionPhase::Transferring,
                Transition::Cancelled,
            ) => Ok(SessionPhase::Cancelled),
            (
                SessionPhase::Created
                | SessionPhase::PendingPair
                | SessionPhase::Paired
                | SessionPhase::Transferring,
                Transition::Failed,
            ) => Ok(SessionPhase::Failed),
            (from, event) => Err(TransitionError { from, event }),
        }
    }

    /// The phase's name.
    pub fn to_string(&self) -> (text: String)
        ensures
            text@ == self.name(),
    {
        match self {
            SessionPhase::Created => "created".to_owned(),
            SessionPhase::PendingPair => "pending_pair".to_owned(),
            SessionPhase::Paired => "paired".to_owned(),
            SessionPhase::Transferring => "transferring".to_owned(),
            SessionPhase::Done => "done".to_owned(),
            SessionPhase::Cancelled => "cancelled".to_owned(),
            SessionPhase::Failed => "failed".to_owned(),
        }
    }
}

impl Transition {
    /// The event's name in lower case, with underscores.
    pub open spec fn name(self) -> Seq<char> {
        match self {
            Transition::StartPairing => "start_pairing"@,
            Transition::PairConfirmed => "pair_confirmed"@,
            Transition::TransferStarted => "transfer_started"@,
            Transition::Completed => "completed"@,
            Transition::Cancelled => "cancelled"@,
            Transition::Failed => "failed"@,
        }
    }
}

impl TransitionError {
    /// The sentence that reports the error; it names the event and the phase.
    pub fn to_string(&self) -> (text: String)
        ensures
            text@ == transition_error_text(*self),
    {
        let mut text = "illegal transition ".to_owned();
        text.append(event_name(self.event));
        text.append(" from phase ");
        text.append(self.from.to_string().as_str());
        text
    }
}

/// The sentence that reports a refused event.
pub open spec fn transition_error_text(error: TransitionError) -> Seq<char> {
    "illegal transition "@ + error.event.name() + " from phase "@ + error.from.name()
}

fn event_name(event: Transition) -> (name: &'static str)
    ensures
        name@ == event.name(),
{
    match event {
        Transition::StartPairing => "start_pairing",
        Transition::PairConfirmed => "pair_confirmed",
        Transition::TransferStarted => "transfer_started",
        Transition::Completed => "completed",
        Transition::Cancelled => "cancelled",
        Transition::Failed => "failed",
    }
}

/// The phase after a run of events, if every one of them is allowed.
pub open spec fn run(phase: SessionPhase, events: Seq<Transition>) -> Option<SessionPhase>
    decreases events.len(),
{
    if events.len() == 0 {
        Some(phase)
    } else {
        match phase.next(events[0]) {
            Some(next) => run(next, events.drop_first()),
            None => None,
        }
    }
}

/// A final phase refuses every event.
pub proof fn terminal_phase_refuses(phase: SessionPhase, event: Transition)
    requires
        phase.terminal(),
    ensures
        phase.next(event) is None,
{
}

/// From every phase that is not final, cancelling leads to cancelled and failing to failed.
pub proof fn live_phase_can_end(phase: SessionPhase)
    requires
        !phase.terminal(),
    ensures
        phase.next(Transition::Cancelled) == Some(SessionPhase::Cancelled),
        phase.next(Transition::Failed) == Some(SessionPhase::Failed),
{
}

/// A session only moves forward: an allowed event never leads to a phase that was passed or to
/// the same phase again.
pub proof fn phases_only_advance(phase: SessionPhase, event: Transition)
    requires
        phase.next(event) is Some,
    ensures
        phase.next(event)->0.rank() > phase.rank(),
{
}

/// There is one way from the start to done: pairing, its confirmation, the transfer and its
/// completion, none of them left out.
pub proof fn done_takes_every_stage(events: Seq<Transition>)
    requires
        run(SessionPhase::Created, events) == Some(SessionPhase::Done),
    ensures
        events == seq![
            Transition::StartPairing,
            Transition::PairConfirmed,
            Transition::TransferStarted,
            Transition::Completed,
        ],
{
    reveal_with_fuel(run, 6);
    let e1 = events.drop_first();
    let e2 = e1.drop_first();
    let e3 = e2.drop_first();
    assert(events.len() > 0 && e1.len() > 0 && e2.len() > 0 && e3.len() > 0);
    assert(events[1] == e1[0] && events[2] == e2[0] && events[3] == e3[0]);
    assert(e3.drop_first().len() == 0);
    assert(events =~= seq![
        Transition::StartPairing,
        Transition::PairConfirmed,
        Transition::TransferStarted,
        Transition::Completed,
    ]);
}

} // verus!
