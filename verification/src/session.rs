//! A transfer session: its phase, and whether it was cancelled.
pub mod control;
pub mod state;

use vstd::prelude::*;

use crate::session::state::{SessionPhase, Transition, TransitionError};

verus! {

/// A session: the phase it is in, and the cancellation that its watchers see.
#[derive(Debug)]
pub struct Session {
    phase: SessionPhase,
    cancelled: bool,
}

impl Session {
    /// The phase that the session is in.
    pub closed spec fn at(self) -> SessionPhase {
        self.phase
    }

    /// Whether cancellation has been signalled.
    pub closed spec fn signalled(self) -> bool {
        self.cancelled
    }

    #[verifier::type_invariant]
    closed spec fn inv(self) -> bool {
        self.cancelled ==> self.phase == SessionPhase::Cancelled
    }

    /// A new session, in [`SessionPhase::Created`].
    pub fn new() -> (session: Self)
        ensures
            session.at() == SessionPhase::Created,
            !session.signalled(),
    {
        Session { phase: SessionPhase::Created, cancelled: false }
    }

    /// Current phase.
    pub fn phase(&self) -> (phase: SessionPhase)
        ensures
            phase == self.at(),
    {
        self.phase
    }

    /// Whether cancellation has been signalled. A session of which that holds is in
    /// [`SessionPhase::Cancelled`].
    pub fn is_cancelled(&self) -> (yes: bool)
        ensures
            yes == self.signalled(),
            yes ==> self.at() == SessionPhase::Cancelled,
    {
        proof {
            use_type_invariant(self);
        }
        self.cancelled
    }

    /// Applies `event` and returns the new phase; a refused event changes nothing.
    pub fn transition(&mut self, event: Transition) -> (next: Result<SessionPhase, TransitionError>)
        ensures
            final(self).signalled() == old(self).signalled(),
            match old(self).at().next(event) {
                Some(phase) => next == Ok::<_, TransitionError>(phase) && final(self).at() == phase,
                None => next == Err::<SessionPhase, _>(
                    (TransitionError { from: old(self).at(), event }),
                ) && *final(self) == *old(self),
            },
    {
        proof {
            use_type_invariant(&*self);
        }
        match self.phase.transition(event) {
            Ok(next) => {
                self.phase = next;
                Ok(next)
            },
            Err(error) => Err(error),
        }
    }

    /// Cancels the session and signals its watchers. Fails, and changes nothing, if the session is
    /// over already.
    pub fn cancel(&mut self) -> (next: Result<SessionPhase, TransitionError>)
        ensures
            match next {
                Ok(phase) => !old(self).at().terminal() && phase == SessionPhase::Cancelled
                    && final(self).at() == SessionPhase::Cancelled && final(self).signalled(),
                Err(error) => old(self).at().terminal() && error == (TransitionError {
                    from: old(self).at(),
                    event: Transition::Cancelled,
                }) && *final(self) == *old(self),
            },
    {
        match self.transition(Transition::Cancelled) {
            Ok(next) => {
                self.cancelled = true;
                Ok(next)
            },
            Err(error) => Err(error),
        }
    }
}

impl Default for Session {
    fn default() -> (session: Self)
        ensures
            session.at() == SessionPhase::Created,
            !session.signalled(),
    {
        Session::new()
    }
}

/// How waiting for a value ended.
#[derive(Debug, Clone, Copy, PartialEq, Eq)]
pub enum Race<T> {
    /// The value came first.
    Value(T),
    /// Cancellation won the race.
    Cancelled,
}

impl<T> Race<T> {
    /// Settles a race between cancellation and a value, either of which may have come: a
    /// cancellation wins, also where the value is there too. `None` while neither has come.
    pub fn settle(cancelled: bool, value: Option<T>) -> (outcome: Option<Race<T>>)
        ensures
            outcome == if cancelled {
                Some(Race::Cancelled)
            } else {
                match value {
                    Some(value) => Some(Race::Value(value)),
                    None => None,
                }
            },
    {
        if cancelled {
            return Some(Race::Cancelled);
        }
        match value {
            Some(value) => Some(Race::Value(value)),
            None => None,
        }
    }
}

} // verus!
