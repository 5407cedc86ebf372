//! The errors of the command line, and the exit code that each ends with.
//!
//! `0` is success, `1` an error of the user (bad arguments, invalid configuration), `2` an error
//! at run time (I/O, network).
use vstd::prelude::*;
use vstd::std_specs::convert::FromSpecImpl;

use crate::config::{config_error_text, ConfigError};
use crate::identity::identity_error_text;
use crate::pairing::spake::SpakeError;
use crate::receive::{recv_error_text, RecvError};
use crate::send::{send_error_text, SendError};
use crate::wire::PairError;

verus! {

/// An error of the command line, classified by its exit code.
#[derive(Debug, Clone, PartialEq, Eq)]
pub enum CliError {
    /// Bad arguments or configuration: exit code 1.
    User(String),
    /// I/O, network or another unexpected failure: exit code 2.
    Runtime(String),
}

impl CliError {
    /// What the error says.
    pub open spec fn message(self) -> Seq<char> {
        match self {
            CliError::User(message) => message@,
            CliError::Runtime(message) => message@,
        }
    }

    /// A user-facing error: invalid input, bad configuration, wrong usage.
    pub fn user(message: String) -> (error: CliError)
        ensures
            error == CliError::User(message),
    {
        CliError::User(message)
    }

    /// A runtime error: I/O, network, engine failure.
    pub fn runtime(message: String) -> (error: CliError)
        ensures
            error == CliError::Runtime(message),
    {
        CliError::Runtime(message)
    }

    /// The process exit code for this error.
    pub fn exit_code(&self) -> (code: u8)
        ensures
            code == if self is User {
                1u8
            } else {
                2u8
            },
    {
        match self {
            CliError::User(_) => 1,
            CliError::Runtime(_) => 2,
        }
    }

    /// What the error says.
    pub fn to_string(&self) -> (text: String)
        ensures
            text@ == self.message(),
    {
        match self {
            CliError::User(message) => message.clone(),
            CliError::Runtime(message) => message.clone(),
        }
    }
}

impl From<ConfigError> for CliError {
    /// An invalid configuration is the user's.
    fn from(error: ConfigError) -> (out: CliError)
        ensures
            out is User,
            out.message() == config_error_text(error),
    {
        CliError::User(error.to_string())
    }
}

impl FromSpecImpl<ConfigError> for CliError {
    open spec fn obeys_from_spec() -> bool {
        false
    }

    open spec fn from_spec(error: ConfigError) -> CliError {
        arbitrary()
    }
}

impl From<crate::identity::Error> for CliError {
    /// So is an identity that cannot be had.
    fn from(error: crate::identity::Error) -> (out: CliError)
        ensures
            out is User,
            out.message() == identity_error_text(error),
    {
        CliError::User(error.to_string())
    }
}

impl FromSpecImpl<crate::identity::Error> for CliError {
    open spec fn obeys_from_spec() -> bool {
        false
    }

    open spec fn from_spec(error: crate::identity::Error) -> CliError {
        arbitrary()
    }
}

impl From<SendError> for CliError {
    /// Of the errors of a send, bad input paths are the user's; network, rendezvous, pairing and
    /// protocol failures are not.
    fn from(error: SendError) -> (out: CliError)
        ensures
            out is User == (error is Prepare),
            out.message() == send_error_text(error),
    {
        match error {
            SendError::Prepare(error) => CliError::User(error.to_string()),
            other => CliError::Runtime(other.to_string()),
        }
    }
}

impl FromSpecImpl<SendError> for CliError {
    open spec fn obeys_from_spec() -> bool {
        false
    }

    open spec fn from_spec(error: SendError) -> CliError {
        arbitrary()
    }
}

impl From<RecvError> for CliError {
    /// Of the errors of a receive, a missing or malformed code and the wrong words are the user's.
    fn from(error: RecvError) -> (out: CliError)
        ensures
            out is User == (error is Word || error is NoCode || error == RecvError::Pair(
                PairError::Spake(SpakeError::ConfirmationMismatch),
            )),
            out.message() == recv_error_text(error),
    {
        let text = error.to_string();
        match error {
            RecvError::Word(_) => CliError::User(text),
            RecvError::NoCode => CliError::User(text),
            RecvError::Pair(PairError::Spake(SpakeError::ConfirmationMismatch)) => {
                CliError::User(text)
            },
            _ => CliError::Runtime(text),
        }
    }
}

impl FromSpecImpl<RecvError> for CliError {
    open spec fn obeys_from_spec() -> bool {
        false
    }

    open spec fn from_spec(error: RecvError) -> CliError {
        arbitrary()
    }
}

} // verus!
