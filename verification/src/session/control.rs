//! The messages of the control stream: hello, offer, accept, decline, cancel and result.
use vstd::prelude::*;

use crate::protocol::wire::{wire_error_text, WireError};
use crate::text::{decimal, decimal_string, quote, quoted};

verus! {

broadcast use vstd::string::group_string_axioms;

/// Protocol version carried in [`ControlMessage::Hello`].
pub const PROTOCOL_VERSION: u32 = 1;

/// Upper bound for completing the pairing handshake, in seconds.
pub const HANDSHAKE_TIMEOUT: u64 = 30;

/// Upper bound for idle time between control messages, in seconds.
pub const IDLE_TIMEOUT: u64 = 120;

/// Metadata for one file of an offer.
#[derive(Debug, Clone, PartialEq, Eq)]
pub struct FileMeta {
    pub name: String,
    pub size: u64,
    /// Content hash, in hex.
    pub hash: String,
}

#[allow(inconsistent_fields)]
/// Messages exchanged over the session's control stream.
#[derive(Debug, Clone, PartialEq, Eq)]
pub enum ControlMessage {
    /// First message of the handshake; the version gates compatibility.
    Hello { version: u32 },
    /// Sender advertises the transfer it wants to start.
    Offer { files: Vec<FileMeta>, total_bytes: u64 },
    /// Receiver agrees to the offer.
    Accept,
    /// Receiver refuses the offer.
    Decline { reason: String },
    /// Either side aborts.
    Cancel,
    /// Final outcome of a completed transfer. What was skipped is what the receiver did not
    /// export again because it was there already; the sender counts it as delivered.
    Result { bytes: u64, files: u32, skipped_bytes: u64, skipped_files: u32 },
}

impl ControlMessage {
    /// Refuses a hello of another version; every other message passes.
    pub fn check_version(&self) -> (outcome: Result<(), SessionError>)
        ensures
            match self {
                ControlMessage::Hello { version } if *version != PROTOCOL_VERSION => outcome
                    == Err::<(), _>(
                    (SessionError::VersionMismatch { got: *version, expected: PROTOCOL_VERSION }),
                ),
                _ => outcome is Ok,
            },
    {
        match self {
            ControlMessage::Hello { version } => {
                if *version != PROTOCOL_VERSION {
                    return Err(
                        SessionError::VersionMismatch {
                            got: *version,
                            expected: PROTOCOL_VERSION,
                        },
                    );
                }
                Ok(())
            },
            _ => Ok(()),
        }
    }
}

/// What comes of a payload that was read, given what it says, or why it is no message: a hello of
/// another version is refused too.
pub fn message_read(parsed: Result<ControlMessage, String>) -> (message: Result<
    ControlMessage,
    SessionError,
>)
    ensures
        match parsed {
            Ok(ControlMessage::Hello { version }) if version != PROTOCOL_VERSION => message == Err::<
                ControlMessage,
                _,
            >((SessionError::VersionMismatch { got: version, expected: PROTOCOL_VERSION })),
            Ok(parsed) => message == Ok::<_, SessionError>(parsed),
            Err(reason) => message == Err::<ControlMessage, _>(
                SessionError::Wire(WireError::Deserialize(reason)),
            ),
        },
{
    match parsed {
        Ok(message) => match message.check_version() {
            Ok(()) => Ok(message),
            Err(error) => Err(error),
        },
        Err(reason) => Err(SessionError::Wire(WireError::Deserialize(reason))),
    }
}

/// A file of an offer, as it is shown in reports.
pub open spec fn file_shown(file: FileMeta) -> Seq<char> {
    "FileMeta { name: "@ + quoted(file.name@) + ", size: "@ + decimal(file.size as nat)
        + ", hash: "@ + quoted(file.hash@) + " }"@
}

/// The first `n` files of an offer, as they are shown in reports.
pub open spec fn files_shown(files: Seq<FileMeta>, n: int) -> Seq<char>
    decreases n,
{
    if n <= 0 {
        Seq::empty()
    } else if n == 1 {
        file_shown(files[0])
    } else {
        files_shown(files, n - 1) + ", "@ + file_shown(files[n - 1])
    }
}

/// A message, as it is shown in reports.
pub open spec fn message_shown(message: ControlMessage) -> Seq<char> {
    match message {
        ControlMessage::Hello { version } => "Hello { version: "@ + decimal(version as nat) + " }"@,
        ControlMessage::Offer { files, total_bytes } => "Offer { files: ["@ + files_shown(
            files@,
            files@.len() as int,
        ) + "], total_bytes: "@ + decimal(total_bytes as nat) + " }"@,
        ControlMessage::Accept => "Accept"@,
        ControlMessage::Decline { reason } => "Decline { reason: "@ + quoted(reason@) + " }"@,
        ControlMessage::Cancel => "Cancel"@,
        ControlMessage::Result { bytes, files, skipped_bytes, skipped_files } => "Result { bytes: "@
            + decimal(bytes as nat) + ", files: "@ + decimal(files as nat) + ", skipped_bytes: "@
            + decimal(skipped_bytes as nat) + ", skipped_files: "@ + decimal(skipped_files as nat)
            + " }"@,
    }
}

fn show_file(file: &FileMeta) -> (text: String)
    ensures
        text@ == file_shown(*file),
{
    "FileMeta { name: ".to_owned().concat(quote(file.name.as_str()).as_str()).concat(
        ", size: ",
    ).concat(decimal_string(file.size).as_str()).concat(", hash: ").concat(
        quote(file.hash.as_str()).as_str(),
    ).concat(" }")
}

impl ControlMessage {
    /// The message, as it is shown in reports.
    pub fn shown(&self) -> (text: String)
        ensures
            text@ == message_shown(*self),
    {
        match self {
            ControlMessage::Hello { version } => {
                "Hello { version: ".to_owned().concat(
                    decimal_string(*version as u64).as_str(),
                ).concat(" }")
            },
            ControlMessage::Offer { files, total_bytes } => {
                let mut list = String::new();
                let mut i: usize = 0;
                while i < files.len()
                    invariant
                        i <= files@.len(),
                        list@ == files_shown(files@, i as int),
                    decreases files@.len() - i,
                {
                    if i > 0 {
                        list.append(", ");
                    }
                    list.append(show_file(&files[i]).as_str());
                    assert(list@ =~= files_shown(files@, i + 1));
                    i += 1;
                }
                "Offer { files: [".to_owned().concat(list.as_str()).concat(
                    "], total_bytes: ",
                ).concat(decimal_string(*total_bytes).as_str()).concat(" }")
            },
            ControlMessage::Accept => "Accept".to_owned(),
            ControlMessage::Decline { reason } => {
                "Decline { reason: ".to_owned().concat(quote(reason.as_str()).as_str()).concat(
                    " }",
                )
            },
            ControlMessage::Cancel => "Cancel".to_owned(),
            ControlMessage::Result { bytes, files, skipped_bytes, skipped_files } => {
                "Result { bytes: ".to_owned().concat(decimal_string(*bytes).as_str()).concat(
                    ", files: ",
                ).concat(decimal_string(*files as u64).as_str()).concat(
                    ", skipped_bytes: ",
                ).concat(decimal_string(*skipped_bytes).as_str()).concat(
                    ", skipped_files: ",
                ).concat(decimal_string(*skipped_files as u64).as_str()).concat(" }")
            },
        }
    }
}

/// Errors from exchanging control messages.
#[derive(Debug, Clone, PartialEq, Eq)]
pub enum SessionError {
    /// The frame or its payload is not acceptable.
    Wire(WireError),
    /// The stream failed, with its own words.
    Io(String),
    /// Peer closed the connection in the middle of a message.
    UnexpectedEof,
    /// No message arrived within the limit, which is in milliseconds.
    Timeout { context: &'static str, limit: u64 },
    /// Peer's hello carries a different protocol version.
    VersionMismatch { got: u32, expected: u32 },
}

/// The sentence that reports an error of the exchange.
pub open spec fn session_error_text(error: SessionError) -> Seq<char> {
    match error {
        SessionError::Wire(e) => "wire error: "@ + wire_error_text(e),
        SessionError::Io(reason) => "io error: "@ + reason@,
        SessionError::UnexpectedEof => "connection closed by peer mid-message"@,
        SessionError::Timeout { context, limit } => "timed out after "@ + decimal(
            (limit / 1000) as nat,
        ) + "s waiting for "@ + context@,
        SessionError::VersionMismatch { got, expected } => "protocol version mismatch: got "@
            + decimal(got as nat) + ", expected "@ + decimal(expected as nat),
    }
}

impl SessionError {
    /// The error of a read that failed: an end of the stream is told apart from other failures.
    pub fn from_read(end_of_stream: bool, reason: String) -> (error: Self)
        ensures
            error == if end_of_stream {
                SessionError::UnexpectedEof
            } else {
                SessionError::Io(reason)
            },
    {
        if end_of_stream {
            SessionError::UnexpectedEof
        } else {
            SessionError::Io(reason)
        }
    }

    /// The sentence that reports the error.
    pub fn to_string(&self) -> (text: String)
        ensures
            text@ == session_error_text(*self),
    {
        let mut text: String;
        match self {
            SessionError::Wire(error) => {
                text = "wire error: ".to_owned();
                text.append(error.to_string().as_str());
            },
            SessionError::Io(reason) => {
                text = "io error: ".to_owned();
                text.append(reason.as_str());
            },
            SessionError::UnexpectedEof => {
                text = "connection closed by peer mid-message".to_owned();
            },
            SessionError::Timeout { context, limit } => {
                text = "timed out after ".to_owned();
                text.append(decimal_string(*limit / 1000).as_str());
                text.append("s waiting for ");
                text.append(context);
            },
            SessionError::VersionMismatch { got, expected } => {
                text = "protocol version mismatch: got ".to_owned();
                text.append(decimal_string(*got as u64).as_str());
                text.append(", expected ");
                text.append(decimal_string(*expected as u64).as_str());
            },
        }
        text
    }
}

} // verus!
