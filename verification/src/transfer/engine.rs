//! What the transfer engine decides: whether its directories can be used, which protocols it
//! accepts, and how many payload bytes it has served.
use vstd::prelude::*;

use crate::text::{quote, quoted};
use crate::transfer::paths::{join_path, joined};

verus! {

broadcast use vstd::string::group_string_axioms;

/// Subdirectory of the data dir that holds the blob store.
pub const BLOBS_DIR: &'static str = "blobs";

/// Errors from engine construction and teardown.
#[derive(Debug, Clone, PartialEq, Eq)]
pub enum Error {
    /// The relay URL is not a valid URL.
    RelayUrl { url: String, source: String },
    /// Failed to load or create the blob store under the data dir.
    StoreLoad { dir: String, source: String },
    /// The data dir (or its `blobs` subdir) exists but is not a directory.
    DataDirNotDirectory { path: String },
    /// Failed to bind the endpoint.
    Bind { source: String },
    /// Shutting down failed.
    Shutdown { message: String },
}

/// The sentence that reports an error of the engine.
pub open spec fn engine_error_text(error: Error) -> Seq<char> {
    match error {
        Error::RelayUrl { url, source } => "invalid relay URL "@ + quoted(url@) + ": "@ + source@,
        Error::StoreLoad { dir, source } => "failed to load blob store at "@ + dir@ + ": "@
            + source@,
        Error::DataDirNotDirectory { path } => "data dir "@ + path@
            + " exists but is not a directory"@,
        Error::Bind { source } => "failed to bind iroh endpoint: "@ + source@,
        Error::Shutdown { message } => "engine shutdown failed: "@ + message@,
    }
}

impl Error {
    /// The sentence that reports the error.
    pub fn to_string(&self) -> (text: String)
        ensures
            text@ == engine_error_text(*self),
    {
        let mut text: String;
        match self {
            Error::RelayUrl { url, source } => {
                text = "invalid relay URL ".to_owned();
                text.append(quote(url.as_str()).as_str());
                text.append(": ");
                text.append(source.as_str());
            },
            Error::StoreLoad { dir, source } => {
                text = "failed to load blob store at ".to_owned();
                text.append(dir.as_str());
                text.append(": ");
                text.append(source.as_str());
            },
            Error::DataDirNotDirectory { path } => {
                text = "data dir ".to_owned();
                text.append(path.as_str());
                text.append(" exists but is not a directory");
            },
            Error::Bind { source } => {
                text = "failed to bind iroh endpoint: ".to_owned();
                text.append(source.as_str());
            },
            Error::Shutdown { message } => {
                text = "engine shutdown failed: ".to_owned();
                text.append(message.as_str());
            },
        }
        text
    }
}

/// What stands at a path, as far as opening a store there is concerned.
#[derive(Debug, Clone, Copy, PartialEq, Eq, Structural)]
pub enum Standing {
    Nothing,
    Directory,
    NotDirectory,
}

/// Checks that neither the data dir nor the store's directory in it is something other than a
/// directory; what does not exist yet is fine. Returns the store's directory.
pub fn store_dir(data_dir: &str, at_data_dir: Standing, at_blobs: Standing) -> (dir: Result<
    String,
    Error,
>)
    ensures
        match dir {
            Ok(dir) => at_data_dir != Standing::NotDirectory && at_blobs != Standing::NotDirectory
                && dir@ == joined(data_dir@, "blobs"@),
            Err(Error::DataDirNotDirectory { path }) => if at_data_dir == Standing::NotDirectory {
                path@ == data_dir@
            } else {
                at_blobs == Standing::NotDirectory && path@ == joined(data_dir@, "blobs"@)
            },
            Err(_) => false,
        },
{
    if at_data_dir == Standing::NotDirectory {
        return Err(Error::DataDirNotDirectory { path: data_dir.to_owned() });
    }
    let blobs = join_path(data_dir, "blobs");
    if at_blobs == Standing::NotDirectory {
        return Err(Error::DataDirNotDirectory { path: blobs });
    }
    Ok(blobs)
}

/// The payload bytes of one blob request, folded from its reports.
pub struct RequestProgress {
    last_offset: u64,
}

/// A report on a blob request that is being served.
#[derive(Debug, Clone, Copy, PartialEq, Eq, Structural)]
pub enum RequestUpdate {
    /// The request started.
    Started,
    /// The request has been served up to an offset.
    Progress(u64),
    /// The request is complete; the payload bytes that were sent.
    Completed(u64),
    /// The request was aborted.
    Aborted,
}

/// How far `to` is ahead of `from`.
pub open spec fn advance(from: int, to: int) -> int {
    if to > from {
        to - from
    } else {
        0
    }
}

impl RequestProgress {
    /// The offset of the last progress report.
    pub closed spec fn offset(self) -> u64 {
        self.last_offset
    }

    /// A request of which nothing has been served.
    pub fn new() -> (progress: Self)
        ensures
            progress.offset() == 0,
    {
        RequestProgress { last_offset: 0 }
    }

    /// The bytes that a report adds to what has been served: how far a progress report is ahead
    /// of the one before, and for the completion what no progress report has covered.
    pub fn update(&mut self, update: RequestUpdate) -> (delta: u64)
        ensures
            match update {
                RequestUpdate::Progress(end) => delta == advance(old(self).offset() as int, end as int)
                    && final(self).offset() == end,
                RequestUpdate::Completed(sent) => delta == advance(
                    old(self).offset() as int,
                    sent as int,
                ) && *final(self) == *old(self),
                RequestUpdate::Started | RequestUpdate::Aborted => delta == 0 && *final(self)
                    == *old(self),
            },
    {
        match update {
            RequestUpdate::Progress(end) => {
                let delta: u64 = end.saturating_sub(self.last_offset);
                self.last_offset = end;
                delta
            },
            RequestUpdate::Completed(sent) => sent.saturating_sub(self.last_offset),
            RequestUpdate::Started | RequestUpdate::Aborted => 0,
        }
    }
}

/// The bytes that a run of reports adds up to, from an offset.
pub open spec fn served(offset: int, updates: Seq<RequestUpdate>) -> int
    decreases updates.len(),
{
    if updates.len() == 0 {
        0
    } else {
        match updates[0] {
            RequestUpdate::Progress(end) => advance(offset, end as int) + served(
                end as int,
                updates.drop_first(),
            ),
            RequestUpdate::Completed(sent) => advance(offset, sent as int) + served(
                offset,
                updates.drop_first(),
            ),
            _ => served(offset, updates.drop_first()),
        }
    }
}

/// Progress reports that never go back add up to the last of them, and a completion at the end
/// brings the sum to the bytes that were sent: nothing is counted twice.
pub proof fn served_adds_up_to_what_was_sent(offset: int, ends: Seq<u64>, sent: u64)
    requires
        0 <= offset,
        forall|i: int, j: int| 0 <= i <= j < ends.len() ==> ends[i] <= ends[j],
        ends.len() > 0 ==> offset <= ends[0],
        offset <= sent,
        forall|i: int| 0 <= i < ends.len() ==> ends[i] <= sent,
    ensures
        served(
            offset,
            ends.map_values(|end: u64| RequestUpdate::Progress(end)).push(
                RequestUpdate::Completed(sent),
            ),
        ) == sent - offset,
    decreases ends.len(),
{
    let updates = ends.map_values(|end: u64| RequestUpdate::Progress(end)).push(
        RequestUpdate::Completed(sent),
    );
    if ends.len() == 0 {
        reveal_with_fuel(served, 2);
    } else {
        let rest = ends.drop_first();
        served_adds_up_to_what_was_sent(ends[0] as int, rest, sent);
        assert(updates.drop_first() =~= rest.map_values(|end: u64| RequestUpdate::Progress(end)).push(
            RequestUpdate::Completed(sent),
        ));
    }
}

/// The protocols that the engine accepts: the blob protocol, and then those of its extra handlers.
pub fn accepted_protocols(blobs: &Vec<u8>, extra: Option<Vec<u8>>) -> (alpns: Vec<Vec<u8>>)
    ensures
        alpns@.len() == if extra is Some {
            2int
        } else {
            1int
        },
        alpns@[0]@ == blobs@,
        extra matches Some(alpn) ==> alpns@[1] == alpn,
{
    let mut alpns: Vec<Vec<u8>> = Vec::new();
    alpns.push(blobs.clone());
    match extra {
        Some(alpn) => {
            alpns.push(alpn);
        },
        None => {},
    }
    alpns
}

} // verus!
