//! The receive flow: connect to the sender, download the collection into the store, and export
//! every file into the target dir.
//!
//! [`Receive`] holds what the flow knows and decides what comes next. Whoever drives it carries
//! out the step that [`Receive::phase`] names and reports the outcome to the method for it. A
//! file that exists at its target is skipped unless overwriting is asked for; a directory there
//! is an error. With a record, progress and exported files are persisted, from before the download
//! until the receive is complete, so that an interrupted receive can be resumed.
use vstd::prelude::*;

use crate::pairing::wordcode::contains_text;
use crate::text::{quote, quoted, same_text, split_parts, split_text, texts};
use crate::transfer::engine::Standing;
use crate::transfer::paths::{join_path, joined};
use crate::transfer::record::{
    record_name, RecordStore, RecordView, TransferRecord, TransferStatus,
};

verus! {

broadcast use vstd::string::group_string_axioms;

/// Upper bound for the collection blob when fetching sizes from the peer (32 MiB).
pub const MAX_HASH_SEQ_SIZE: u64 = 33554432;

/// Budget for dialing the sender, in seconds.
pub const CONNECT_TIMEOUT: u64 = 30;

/// Progress events emitted while receiving.
#[derive(Debug, Clone, PartialEq, Eq)]
pub enum ReceiveProgress {
    /// Dialing the sender via the ticket address.
    Connecting,
    /// Downloading payload bytes: `received` of `total`, never more than that.
    Downloading { received: u64, total: u64 },
    /// Exporting a file from the store into the target dir.
    Exporting { file: String },
    /// The transfer finished: exported bytes and file count.
    Done { bytes: u64, files: usize },
    /// The transfer failed.
    Error,
}

/// Options for a receive.
#[derive(Debug, Clone)]
pub struct ReceiveOptions {
    /// Directory the received files are exported into.
    pub target_dir: String,
    /// Replace an existing file at the target path instead of skipping it.
    pub overwrite: bool,
}

/// The result of a completed receive.
#[derive(Debug, Clone, PartialEq, Eq)]
pub struct TransferResult {
    /// Payload bytes exported.
    pub bytes: u64,
    /// Number of files exported.
    pub files: usize,
    /// Collection names skipped because the target existed and was not to be overwritten.
    pub skipped: Vec<String>,
    /// Payload bytes of the files that were not exported now, because the target existed or an
    /// earlier run had exported them.
    pub skipped_bytes: u64,
    /// Number of those files.
    pub skipped_files: usize,
}

/// Errors from the receive flow.
#[derive(Debug, Clone, PartialEq, Eq)]
pub enum ReceiveError {
    /// Failed to create the target dir.
    TargetDir { path: String, source: String },
    /// Failed to resolve the target dir to an absolute path.
    TargetDirResolve { path: String, source: String },
    /// Failed to read the local store state.
    LocalState { source: String },
    /// Failed to connect to the sender.
    Connect { source: String },
    /// The dial to the sender exceeded [`CONNECT_TIMEOUT`].
    ConnectTimeout,
    /// Failed to fetch the collection sizes from the peer.
    Sizes { source: String },
    /// The download failed after connecting.
    Download { source: String },
    /// The downloaded collection could not be loaded from the store.
    LoadCollection { source: String },
    /// A collection name cannot be mapped safely to a path under the target dir.
    InvalidCollectionName { name: String },
    /// Export of a file failed.
    Export { file: String, source: String },
    /// The export ended without a result.
    ExportStreamEnded { file: String },
    /// An existing target could not be removed for overwrite.
    RemoveExisting { path: String, source: String },
    /// A transfer record could not be persisted.
    RecordSave { path: String, source: String },
}

/// What went wrong while receiving.
pub enum ReceiveFault {
    TargetDir(Seq<char>, Seq<char>),
    TargetDirResolve(Seq<char>, Seq<char>),
    LocalState(Seq<char>),
    Connect(Seq<char>),
    ConnectTimeout,
    Sizes(Seq<char>),
    Download(Seq<char>),
    LoadCollection(Seq<char>),
    InvalidCollectionName(Seq<char>),
    Export(Seq<char>, Seq<char>),
    ExportStreamEnded(Seq<char>),
    RemoveExisting(Seq<char>, Seq<char>),
    RecordSave(Seq<char>, Seq<char>),
}

impl View for ReceiveError {
    type V = ReceiveFault;

    open spec fn view(&self) -> ReceiveFault {
        match self {
            ReceiveError::TargetDir { path, source } => ReceiveFault::TargetDir(path@, source@),
            ReceiveError::TargetDirResolve { path, source } => ReceiveFault::TargetDirResolve(
                path@,
                source@,
            ),
            ReceiveError::LocalState { source } => ReceiveFault::LocalState(source@),
            ReceiveError::Connect { source } => ReceiveFault::Connect(source@),
            ReceiveError::ConnectTimeout => ReceiveFault::ConnectTimeout,
            ReceiveError::Sizes { source } => ReceiveFault::Sizes(source@),
            ReceiveError::Download { source } => ReceiveFault::Download(source@),
            ReceiveError::LoadCollection { source } => ReceiveFault::LoadCollection(source@),
            ReceiveError::InvalidCollectionName { name } => ReceiveFault::InvalidCollectionName(
                name@,
            ),
            ReceiveError::Export { file, source } => ReceiveFault::Export(file@, source@),
            ReceiveError::ExportStreamEnded { file } => ReceiveFault::ExportStreamEnded(file@),
            ReceiveError::RemoveExisting { path, source } => ReceiveFault::RemoveExisting(
                path@,
                source@,
            ),
            ReceiveError::RecordSave { path, source } => ReceiveFault::RecordSave(path@, source@),
        }
    }
}

/// The sentence that reports a fault.
pub open spec fn receive_fault_text(fault: ReceiveFault) -> Seq<char> {
    match fault {
        ReceiveFault::TargetDir(path, source) => "failed to create target dir "@ + path + ": "@
            + source,
        ReceiveFault::TargetDirResolve(path, source) => "failed to resolve target dir "@ + path
            + ": "@ + source,
        ReceiveFault::LocalState(source) => "failed to read local store state: "@ + source,
        ReceiveFault::Connect(source) => "failed to connect to the sender: "@ + source,
        ReceiveFault::ConnectTimeout => "connect to the sender timed out after 30s"@,
        ReceiveFault::Sizes(source) => "failed to fetch collection sizes: "@ + source,
        ReceiveFault::Download(source) => "download failed: "@ + source,
        ReceiveFault::LoadCollection(source) => "failed to load downloaded collection: "@ + source,
        ReceiveFault::InvalidCollectionName(name) => "collection name "@ + quoted(name)
            + " cannot be mapped safely under the target dir"@,
        ReceiveFault::Export(file, source) => "failed to export "@ + quoted(file) + ": "@ + source,
        ReceiveFault::ExportStreamEnded(file) => "export of "@ + quoted(file)
            + " ended without a result"@,
        ReceiveFault::RemoveExisting(path, source) => "failed to remove existing target "@ + path
            + ": "@ + source,
        ReceiveFault::RecordSave(path, source) => "failed to save transfer record "@ + path + ": "@
            + source,
    }
}

/// The three or four pieces of a sentence.
fn sentence(start: &str, subject: &str, middle: &str, end: &str) -> (text: String)
    ensures
        text@ == start@ + subject@ + middle@ + end@,
{
    let mut text = start.to_owned();
    text.append(subject);
    text.append(middle);
    text.append(end);
    text
}

impl ReceiveError {
    /// The sentence that reports the error.
    pub fn to_string(&self) -> (text: String)
        ensures
            text@ == receive_fault_text(self@),
    {
        match self {
            ReceiveError::TargetDir { path, source } => sentence(
                "failed to create target dir ",
                path.as_str(),
                ": ",
                source.as_str(),
            ),
            ReceiveError::TargetDirResolve { path, source } => sentence(
                "failed to resolve target dir ",
                path.as_str(),
                ": ",
                source.as_str(),
            ),
            ReceiveError::LocalState { source } => {
                "failed to read local store state: ".to_owned().concat(source.as_str())
            },
            ReceiveError::Connect { source } => {
                "failed to connect to the sender: ".to_owned().concat(source.as_str())
            },
            ReceiveError::ConnectTimeout => {
                "connect to the sender timed out after 30s".to_owned()
            },
            ReceiveError::Sizes { source } => {
                "failed to fetch collection sizes: ".to_owned().concat(source.as_str())
            },
            ReceiveError::Download { source } => {
                "download failed: ".to_owned().concat(source.as_str())
            },
            ReceiveError::LoadCollection { source } => {
                "failed to load downloaded collection: ".to_owned().concat(source.as_str())
            },
            ReceiveError::InvalidCollectionName { name } => {
                "collection name ".to_owned().concat(quote(name.as_str()).as_str()).concat(
                    " cannot be mapped safely under the target dir",
                )
            },
            ReceiveError::Export { file, source } => sentence(
                "failed to export ",
                quote(file.as_str()).as_str(),
                ": ",
                source.as_str(),
            ),
            ReceiveError::ExportStreamEnded { file } => {
                "export of ".to_owned().concat(quote(file.as_str()).as_str()).concat(
                    " ended without a result",
                )
            },
            ReceiveError::RemoveExisting { path, source } => sentence(
                "failed to remove existing target ",
                path.as_str(),
                ": ",
                source.as_str(),
            ),
            ReceiveError::RecordSave { path, source } => sentence(
                "failed to save transfer record ",
                path.as_str(),
                ": ",
                source.as_str(),
            ),
        }
    }
}

/// A component that may stand in a collection name: not empty, not `.` or `..`, and without a
/// backslash.
pub open spec fn safe_part(part: Seq<char>) -> bool {
    part.len() > 0 && part != "."@ && part != ".."@ && !part.contains('\\')
}

/// A collection name that can be mapped to a path under the target dir.
pub open spec fn safe_name(name: Seq<char>) -> bool {
    let parts = split_parts(name, '/');
    forall|i: int| 0 <= i < parts.len() ==> safe_part(#[trigger] parts[i])
}

fn has_backslash(text: &str) -> (yes: bool)
    ensures
        yes == text@.contains('\\'),
{
    let chars = crate::text::chars_of(text);
    let mut i: usize = 0;
    while i < chars.len()
        invariant
            i <= chars@.len(),
            chars@ == text@,
            forall|j: int| 0 <= j < i ==> chars@[j] != '\\',
        decreases chars@.len() - i,
    {
        if chars[i] == '\\' {
            assert(text@[i as int] == '\\');
            return true;
        }
        i += 1;
    }
    false
}

/// Maps a collection name to a path under `root`. Every component is checked, so that no
/// collection can name a path outside.
pub fn export_target(root: &str, name: &str) -> (target: Result<String, ReceiveError>)
    ensures
        match target {
            Ok(target) => safe_name(name@) && target@ == joined(root@, name@),
            Err(error) => !safe_name(name@) && error@ == ReceiveFault::InvalidCollectionName(
                name@,
            ),
        },
{
    let parts = split_text(name, '/');
    let ghost all = split_parts(name@, '/');
    let mut i: usize = 0;
    while i < parts.len()
        invariant
            i <= parts@.len(),
            all == texts(parts@),
            all == split_parts(name@, '/'),
            forall|j: int| 0 <= j < i ==> safe_part(#[trigger] all[j]),
        decreases parts@.len() - i,
    {
        let part: &str = parts[i].as_str();
        assert(all[i as int] == part@);
        if part.is_empty() || same_text(part, ".") || same_text(part, "..") || has_backslash(part) {
            assert(!safe_part(all[i as int]));
            return Err(ReceiveError::InvalidCollectionName { name: name.to_owned() });
        }
        i += 1;
    }
    assert(safe_name(name@));
    Ok(join_path(root, name))
}

/// The path of a file stays below the root: it is the root, a separator where the root does not
/// end in one, and then the components of the name, none of which leads back up.
pub proof fn targets_stay_below_the_root(root: Seq<char>, name: Seq<char>)
    requires
        safe_name(name),
        root.len() > 0,
    ensures
        root.is_prefix_of(joined(root, name)),
        joined(root, name).len() > root.len(),
        forall|i: int|
            0 <= i < split_parts(name, '/').len() ==> #[trigger] split_parts(name, '/')[i] != ".."@,
{
    crate::text::split_parts_nonempty(name, '/');
    if name.len() == 0 {
        assert(split_parts(name, '/')[0] =~= Seq::<char>::empty());
        assert(safe_part(split_parts(name, '/')[0]));
    }
    assert(root =~= joined(root, name).take(root.len() as int));
    assert forall|i: int| 0 <= i < split_parts(name, '/').len() implies #[trigger] split_parts(
        name,
        '/',
    )[i] != ".."@ by {
        assert(safe_part(split_parts(name, '/')[i]));
    }
}

/// Files of different names never share a target.
pub proof fn targets_differ(root: Seq<char>, a: Seq<char>, b: Seq<char>)
    requires
        a != b,
    ensures
        joined(root, a) != joined(root, b),
{
    if joined(root, a) == joined(root, b) {
        crate::transfer::record::joined_is_injective(root, a, b);
    }
}

/// A file of the downloaded collection.
#[derive(Debug, Clone, PartialEq, Eq)]
pub struct CollectionFile {
    pub name: String,
    pub hash: [u8; 32],
    pub size: u64,
}

/// The sum of the sizes of the first `n` files.
pub open spec fn collection_size(files: Seq<CollectionFile>, n: int) -> int
    decreases n,
{
    if n <= 0 {
        0
    } else {
        collection_size(files, n - 1) + files[n - 1].size
    }
}

/// The step that a receive is at.
#[derive(Debug, Clone, Copy, PartialEq, Eq, Structural)]
pub enum ReceivePhase {
    /// Save the record that the receive starts with.
    SaveRecord,
    /// Create the target dir.
    CreateTargetDir,
    /// Resolve the target dir to an absolute path.
    ResolveTargetDir,
    /// Read what the store holds of the collection.
    ReadLocalState,
    /// Dial the sender.
    Connect,
    /// Fetch the sizes of the collection's blobs.
    FetchSizes,
    /// Take the next report of the download.
    Download,
    /// Save the record with the new progress.
    SaveProgress,
    /// Load the collection from the store.
    LoadCollection,
    /// See whether the current file's target exists.
    CheckTarget,
    /// Remove what stands at the current file's target.
    RemoveExisting,
    /// Take the next report of the export of the current file.
    Export,
    /// Save the record with the exported file.
    SaveExported,
    /// Save the record as done.
    SaveDone,
    /// Delete the record.
    DeleteRecord,
    /// The receive is complete.
    Finished,
    /// The receive has failed.
    Failed,
}

/// The steps before the collection is at hand.
pub open spec fn before_export(phase: ReceivePhase) -> bool {
    match phase {
        ReceivePhase::SaveRecord
        | ReceivePhase::CreateTargetDir
        | ReceivePhase::ResolveTargetDir
        | ReceivePhase::ReadLocalState
        | ReceivePhase::Connect
        | ReceivePhase::FetchSizes
        | ReceivePhase::Download
        | ReceivePhase::SaveProgress
        | ReceivePhase::LoadCollection => true,
        _ => false,
    }
}

/// The steps at which the record is newer than what was saved of it.
pub open spec fn save_is_due(phase: ReceivePhase) -> bool {
    match phase {
        ReceivePhase::SaveRecord
        | ReceivePhase::SaveProgress
        | ReceivePhase::SaveExported
        | ReceivePhase::SaveDone => true,
        _ => false,
    }
}

/// What became of a file of the collection.
pub enum FileFate {
    /// An earlier run had exported it.
    AlreadyExported,
    /// Its target existed and was not to be overwritten.
    SkippedExisting,
    /// It was exported; the size that the export reported.
    Exported(u64),
}

/// The bytes that were exported.
pub open spec fn exported_bytes(fates: Seq<FileFate>) -> int
    decreases fates.len(),
{
    if fates.len() == 0 {
        0
    } else {
        exported_bytes(fates.drop_last()) + match fates.last() {
            FileFate::Exported(size) => size as int,
            _ => 0,
        }
    }
}

/// The number of files that were exported.
pub open spec fn exported_count(fates: Seq<FileFate>) -> int
    decreases fates.len(),
{
    if fates.len() == 0 {
        0
    } else {
        exported_count(fates.drop_last()) + if fates.last() is Exported {
            1int
        } else {
            0
        }
    }
}

/// The names of the files that were skipped because their targets existed.
pub open spec fn skipped_names(files: Seq<CollectionFile>, fates: Seq<FileFate>) -> Seq<Seq<char>>
    decreases fates.len(),
{
    if fates.len() == 0 {
        Seq::empty()
    } else {
        let before = skipped_names(files, fates.drop_last());
        if fates.last() is SkippedExisting {
            before.push(files[fates.len() - 1].name@)
        } else {
            before
        }
    }
}

/// The bytes of the files that were not exported now.
pub open spec fn passed_bytes(files: Seq<CollectionFile>, fates: Seq<FileFate>) -> int
    decreases fates.len(),
{
    if fates.len() == 0 {
        0
    } else {
        passed_bytes(files, fates.drop_last()) + if fates.last() is Exported {
            0
        } else {
            files[fates.len() - 1].size as int
        }
    }
}

/// What a receive knows.
#[verifier::ext_equal]
pub struct ReceiveView {
    pub target_dir: Seq<char>,
    pub overwrite: bool,
    pub records: Seq<char>,
    pub record: Option<RecordView>,
    /// What was last saved of the record, until it is deleted.
    pub saved: Option<RecordView>,
    pub phase: ReceivePhase,
    pub root: Seq<char>,
    pub local_bytes: u64,
    pub total: u64,
    pub received: u64,
    pub files: Seq<CollectionFile>,
    pub fates: Seq<FileFate>,
    pub target: Seq<char>,
    pub size: u64,
    pub export_done: bool,
}

impl ReceiveView {
    /// The file that is to be exported next.
    pub open spec fn current(self) -> CollectionFile {
        self.files[self.fates.len() as int]
    }

    /// What the receive knows once it has failed.
    pub open spec fn failed(self) -> ReceiveView {
        ReceiveView { phase: ReceivePhase::Failed, ..self }
    }

    /// The path of the record.
    pub open spec fn record_path(self) -> Seq<char> {
        joined(self.records, record_name(self.record->0.collection_hash))
    }

    /// Whether an earlier run has exported the current file.
    pub open spec fn current_is_exported(self) -> bool {
        self.record matches Some(record) && record.exported_files.contains(self.current().name@)
    }

    /// The receive with the current file's fate settled.
    pub open spec fn with_fate(self, fate: FileFate) -> ReceiveView {
        ReceiveView { fates: self.fates.push(fate), ..self }
    }

    /// The receive at the next file that an earlier run has not exported: at the check of its
    /// target, failed over its name, or, behind the last file, at its end.
    pub open spec fn at_next_file(self, now: u128) -> ReceiveView
        decreases self.files.len() - self.fates.len(),
    {
        if self.fates.len() >= self.files.len() {
            match self.record {
                Some(record) => ReceiveView {
                    phase: ReceivePhase::SaveDone,
                    record: Some(
                        RecordView { status: TransferStatus::Done, updated_at: now, ..record },
                    ),
                    ..self
                },
                None => ReceiveView { phase: ReceivePhase::Finished, ..self },
            }
        } else if self.current_is_exported() {
            self.with_fate(FileFate::AlreadyExported).at_next_file(now)
        } else if !safe_name(self.current().name@) {
            self.failed()
        } else {
            ReceiveView {
                phase: ReceivePhase::CheckTarget,
                target: joined(self.root, self.current().name@),
                ..self
            }
        }
    }

    /// What became of the files so far agrees with the options and the record: nothing is skipped
    /// where targets are to be overwritten, nothing counts as exported earlier without a record,
    /// and what has been exported, now or earlier, stands in the record.
    pub open spec fn consistent(self) -> bool {
        &&& self.fates.len() <= self.files.len()
        &&& forall|k: int|
            0 <= k < self.fates.len() ==> match #[trigger] self.fates[k] {
                FileFate::SkippedExisting => !self.overwrite,
                FileFate::AlreadyExported => self.record matches Some(record)
                    && record.exported_files.contains(self.files[k].name@),
                FileFate::Exported(_) => self.record matches Some(record)
                    ==> record.exported_files.contains(self.files[k].name@),
            }
    }

    /// The receive with the export of the current file under way.
    pub open spec fn exporting(self) -> ReceiveView {
        ReceiveView { phase: ReceivePhase::Export, size: 0, export_done: false, ..self }
    }

    /// The progress that goes out at the end.
    pub open spec fn is_done_event(self, event: ReceiveProgress) -> bool {
        event matches ReceiveProgress::Done { bytes, files } && bytes == exported_bytes(self.fates)
            && files == exported_count(self.fates)
    }
}

/// A step that failed. `announce` tells whether [`ReceiveProgress::Error`] goes out first.
#[derive(Debug, Clone, PartialEq, Eq)]
pub struct Failure {
    pub announce: bool,
    pub error: ReceiveError,
}

/// A failure with a given fault.
pub open spec fn fails<T>(outcome: Result<T, Failure>, announce: bool, fault: ReceiveFault) -> bool {
    outcome matches Err(failure) && failure.announce == announce && failure.error@ == fault
}

/// What comes of moving on to the next file.
pub open spec fn moved_on(
    outcome: Result<Option<ReceiveProgress>, Failure>,
    after: ReceiveView,
) -> bool {
    match after.phase {
        ReceivePhase::Failed => fails(
            outcome,
            false,
            ReceiveFault::InvalidCollectionName(after.current().name@),
        ),
        ReceivePhase::Finished => outcome matches Ok(Some(event)) && after.is_done_event(event),
        _ => outcome matches Ok(None),
    }
}

/// What the store holds of a collection.
#[derive(Debug, Clone, Copy, PartialEq, Eq, Structural)]
pub struct LocalState {
    pub complete: bool,
    pub bytes: u64,
}

/// How dialing the sender went.
#[derive(Debug)]
pub enum Dial {
    Connected,
    Refused(String),
    TimedOut,
}

/// A report of the download.
#[derive(Debug)]
pub enum DownloadItem {
    /// Payload has been fetched up to an offset.
    Progress(u64),
    /// The download is complete.
    Done,
    /// The download failed, and why.
    Error(String),
    /// There are no more reports.
    Ended,
}

/// A report of the export of a file.
#[derive(Debug)]
pub enum ExportItem {
    /// The file's size.
    Size(u64),
    /// Something is under way that needs no reaction.
    CopyProgress,
    /// The file is exported.
    Done,
    /// The export failed, and why.
    Error(String),
    /// There are no more reports.
    Ended,
}

/// The sum of the sizes behind the first.
pub open spec fn sum_behind_first(sizes: Seq<u64>) -> int
    decreases sizes.len(),
{
    if sizes.len() <= 1 {
        0
    } else {
        sum_behind_first(sizes.drop_last()) + sizes.last()
    }
}

/// The payload bytes of a collection, given the sizes of its blobs: the first is the collection's
/// own metadata and does not count. `None` where the sum does not fit.
pub fn payload_total(sizes: &Vec<u64>) -> (total: Option<u64>)
    ensures
        match total {
            Some(total) => total == sum_behind_first(sizes@),
            None => sum_behind_first(sizes@) > u64::MAX,
        },
{
    let mut total: u64 = 0;
    let mut i: usize = 1;
    if sizes.len() == 0 {
        return Some(0);
    }
    while i < sizes.len()
        invariant
            1 <= i <= sizes@.len(),
            total == sum_behind_first(sizes@.take(i as int)),
        decreases sizes@.len() - i,
    {
        assert(sizes@.take(i + 1).drop_last() =~= sizes@.take(i as int));
        if sizes[i] > u64::MAX - total {
            proof {
                sum_grows(sizes@, i + 1);
            }
            return None;
        }
        total = total + sizes[i];
        i += 1;
    }
    assert(sizes@.take(i as int) =~= sizes@);
    Some(total)
}

proof fn sum_grows(sizes: Seq<u64>, i: int)
    requires
        0 <= i <= sizes.len(),
    ensures
        sum_behind_first(sizes.take(i)) <= sum_behind_first(sizes),
    decreases sizes.len(),
{
    if i == sizes.len() {
        assert(sizes.take(i) =~= sizes);
    } else {
        sum_grows(sizes.drop_last(), i);
        assert(sizes.drop_last().take(i) =~= sizes.take(i));
    }
}

/// Whether the sizes of a collection's files add up to something that fits.
pub fn collection_fits(files: &Vec<CollectionFile>) -> (fits: bool)
    ensures
        fits == (collection_size(files@, files@.len() as int) <= u64::MAX),
{
    let mut sum: u64 = 0;
    let mut i: usize = 0;
    while i < files.len()
        invariant
            i <= files@.len(),
            sum == collection_size(files@, i as int),
        decreases files@.len() - i,
    {
        if files[i].size > u64::MAX - sum {
            proof {
                collection_size_grows(files@, i + 1, files@.len() as int);
            }
            return false;
        }
        sum = sum + files[i].size;
        i += 1;
    }
    true
}

proof fn collection_size_grows(files: Seq<CollectionFile>, i: int, n: int)
    requires
        0 <= i <= n,
    ensures
        collection_size(files, i) <= collection_size(files, n),
    decreases n,
{
    if i < n {
        collection_size_grows(files, i, n - 1);
    }
}

/// A receive in progress.
pub struct Receive {
    target_dir: String,
    overwrite: bool,
    records: RecordStore,
    record: Option<TransferRecord>,
    phase: ReceivePhase,
    root: String,
    local_bytes: u64,
    total: u64,
    received: u64,
    files: Vec<CollectionFile>,
    at: usize,
    target: String,
    size: u64,
    export_done: bool,
    bytes: u64,
    exported: usize,
    skipped: Vec<String>,
    skipped_bytes: u64,
    fates: Ghost<Seq<FileFate>>,
    saved: Ghost<Option<RecordView>>,
}

impl View for Receive {
    type V = ReceiveView;

    closed spec fn view(&self) -> ReceiveView {
        ReceiveView {
            target_dir: self.target_dir@,
            overwrite: self.overwrite,
            records: self.records@,
            record: match self.record {
                Some(record) => Some(record@),
                None => None,
            },
            saved: self.saved@,
            phase: self.phase,
            root: self.root@,
            local_bytes: self.local_bytes,
            total: self.total,
            received: self.received,
            files: self.files@,
            fates: self.fates@,
            target: self.target@,
            size: self.size,
            export_done: self.export_done,
        }
    }
}

impl Receive {
    /// The counters agree with what became of the files so far; while a step concerns a file,
    /// there is one.
    pub closed spec fn wf(self) -> bool {
        &&& self.fates@.len() == self.at <= self.files@.len()
        &&& self.bytes == exported_bytes(self.fates@)
        &&& self.exported == exported_count(self.fates@) <= self.at
        &&& texts(self.skipped@) == skipped_names(self.files@, self.fates@)
        &&& self.skipped_bytes == passed_bytes(self.files@, self.fates@) <= collection_size(
            self.files@,
            self.at as int,
        )
        &&& collection_size(self.files@, self.files@.len() as int) <= u64::MAX
        &&& self.phase == ReceivePhase::CheckTarget || self.phase == ReceivePhase::RemoveExisting
            || self.phase == ReceivePhase::Export ==> self.at < self.files@.len()
        &&& save_is_due(self.phase) || self.phase == ReceivePhase::DeleteRecord
            ==> self.record is Some
        &&& self.phase == ReceivePhase::SaveDone || self.phase == ReceivePhase::DeleteRecord
            || self.phase == ReceivePhase::Finished ==> self.at == self.files@.len()
        &&& !save_is_due(self.phase) && self.phase != ReceivePhase::Finished && self.phase
            != ReceivePhase::Failed ==> self@.saved == self@.record
        &&& self.record is None ==> self@.saved is None
        &&& before_export(self.phase) ==> self.at == 0
        &&& self@.consistent()
    }

    /// A receive into a target dir, with the record to resume from where there is to be one. The
    /// record is saved before anything else, so that a receive that is broken off can be resumed.
    pub fn new(options: ReceiveOptions, data_dir: &str, record: Option<TransferRecord>) -> (receive:
        Self)
        ensures
            receive.wf(),
            receive@ == (ReceiveView {
                target_dir: options.target_dir@,
                overwrite: options.overwrite,
                records: joined(data_dir@, "transfers"@),
                record: match record {
                    Some(record) => Some(record@),
                    None => None,
                },
                saved: None,
                phase: if record is Some {
                    ReceivePhase::SaveRecord
                } else {
                    ReceivePhase::CreateTargetDir
                },
                root: Seq::empty(),
                local_bytes: 0,
                total: 0,
                received: 0,
                files: Seq::empty(),
                fates: Seq::empty(),
                target: Seq::empty(),
                size: 0,
                export_done: false,
            }),
    {
        let skipped: Vec<String> = Vec::new();
        assert(texts(skipped@) =~= Seq::empty());
        let phase = match &record {
            Some(_) => ReceivePhase::SaveRecord,
            None => ReceivePhase::CreateTargetDir,
        };
        Receive {
            target_dir: options.target_dir,
            overwrite: options.overwrite,
            records: RecordStore::new(data_dir),
            record,
            phase,
            root: String::new(),
            local_bytes: 0,
            total: 0,
            received: 0,
            files: Vec::new(),
            at: 0,
            target: String::new(),
            size: 0,
            export_done: false,
            bytes: 0,
            exported: 0,
            skipped,
            skipped_bytes: 0,
            fates: Ghost(Seq::empty()),
            saved: Ghost(None),
        }
    }

    /// The step to carry out.
    pub fn phase(&self) -> (phase: ReceivePhase)
        ensures
            phase == self@.phase,
    {
        self.phase
    }

    /// The record to save, where there is one.
    pub fn record(&self) -> (record: Option<&TransferRecord>)
        ensures
            match record {
                Some(record) => self@.record == Some(record@),
                None => self@.record is None,
            },
    {
        self.record.as_ref()
    }

    /// The target of the current file.
    pub fn target(&self) -> (target: &str)
        ensures
            target@ == self@.target,
    {
        self.target.as_str()
    }

    /// The hash of the current file.
    pub fn current_hash(&self) -> (hash: [u8; 32])
        requires
            self.wf(),
            self@.fates.len() < self@.files.len(),
        ensures
            hash == self@.current().hash,
    {
        self.files[self.at].hash
    }

    /// The record that the receive starts with has been saved, or not.
    pub fn record_saved(&mut self, outcome: Result<(), String>) -> (step: Result<(), Failure>)
        requires
            old(self).wf(),
            old(self)@.phase == ReceivePhase::SaveRecord,
        ensures
            final(self).wf(),
            match outcome {
                Ok(()) => step is Ok && final(self)@ == (ReceiveView {
                    phase: ReceivePhase::CreateTargetDir,
                    saved: old(self)@.record,
                    ..old(self)@
                }),
                Err(source) => final(self)@ == old(self)@.failed() && fails(
                    step,
                    false,
                    ReceiveFault::RecordSave(old(self)@.record_path(), source@),
                ),
            },
    {
        match outcome {
            Ok(()) => {
                self.note_saved();
                self.phase = ReceivePhase::CreateTargetDir;
                Ok(())
            },
            Err(source) => {
                let failure = self.save_failure(source);
                self.phase = ReceivePhase::Failed;
                Err(failure)
            },
        }
    }

    /// Notes that the record stands on disk as it is.
    fn note_saved(&mut self)
        ensures
            *final(self) == (Receive { saved: final(self).saved, ..*old(self) }),
            final(self)@.saved == old(self)@.record,
    {
        self.saved = Ghost(self@.record);
    }

    /// The target dir has been created, or not.
    pub fn target_dir_created(&mut self, outcome: Result<(), String>) -> (step: Result<(), Failure>)
        requires
            old(self).wf(),
            old(self)@.phase == ReceivePhase::CreateTargetDir,
        ensures
            final(self).wf(),
            match outcome {
                Ok(()) => step is Ok && final(self)@ == (ReceiveView {
                    phase: ReceivePhase::ResolveTargetDir,
                    ..old(self)@
                }),
                Err(source) => final(self)@ == old(self)@.failed() && fails(
                    step,
                    false,
                    ReceiveFault::TargetDir(old(self)@.target_dir, source@),
                ),
            },
    {
        match outcome {
            Ok(()) => {
                self.phase = ReceivePhase::ResolveTargetDir;
                Ok(())
            },
            Err(source) => {
                self.phase = ReceivePhase::Failed;
                Err(
                    Failure {
                        announce: false,
                        error: ReceiveError::TargetDir { path: self.target_dir.clone(), source },
                    },
                )
            },
        }
    }

    /// The target dir has been resolved to an absolute path, or not.
    pub fn target_dir_resolved(&mut self, outcome: Result<String, String>) -> (step: Result<
        (),
        Failure,
    >)
        requires
            old(self).wf(),
            old(self)@.phase == ReceivePhase::ResolveTargetDir,
        ensures
            final(self).wf(),
            match outcome {
                Ok(root) => step is Ok && final(self)@ == (ReceiveView {
                    phase: ReceivePhase::ReadLocalState,
                    root: root@,
                    ..old(self)@
                }),
                Err(source) => final(self)@ == old(self)@.failed() && fails(
                    step,
                    false,
                    ReceiveFault::TargetDirResolve(old(self)@.target_dir, source@),
                ),
            },
    {
        match outcome {
            Ok(root) => {
                self.phase = ReceivePhase::ReadLocalState;
                self.root = root;
                Ok(())
            },
            Err(source) => {
                self.phase = ReceivePhase::Failed;
                Err(
                    Failure {
                        announce: false,
                        error: ReceiveError::TargetDirResolve {
                            path: self.target_dir.clone(),
                            source,
                        },
                    },
                )
            },
        }
    }

    /// What the store holds is known, or not. A complete collection is not fetched again: the
    /// sender is not dialed at all.
    pub fn local_state_read(&mut self, outcome: Result<LocalState, String>) -> (step: Result<
        Option<ReceiveProgress>,
        Failure,
    >)
        requires
            old(self).wf(),
            old(self)@.phase == ReceivePhase::ReadLocalState,
        ensures
            final(self).wf(),
            match outcome {
                Ok(local) => if local.complete {
                    step matches Ok(None) && final(self)@ == (ReceiveView {
                        phase: ReceivePhase::LoadCollection,
                        ..old(self)@
                    })
                } else {
                    step matches Ok(Some(ReceiveProgress::Connecting)) && final(self)@ == (
                    ReceiveView {
                        phase: ReceivePhase::Connect,
                        local_bytes: local.bytes,
                        ..old(self)@
                    })
                },
                Err(source) => final(self)@ == old(self)@.failed() && fails(
                    step,
                    false,
                    ReceiveFault::LocalState(source@),
                ),
            },
    {
        match outcome {
            Ok(local) => {
                if local.complete {
                    self.phase = ReceivePhase::LoadCollection;
                    Ok(None)
                } else {
                    self.phase = ReceivePhase::Connect;
                    self.local_bytes = local.bytes;
                    Ok(Some(ReceiveProgress::Connecting))
                }
            },
            Err(source) => {
                self.phase = ReceivePhase::Failed;
                Err(Failure { announce: false, error: ReceiveError::LocalState { source } })
            },
        }
    }

    /// The sender has been dialed.
    pub fn dialed(&mut self, outcome: Dial) -> (step: Result<(), Failure>)
        requires
            old(self).wf(),
            old(self)@.phase == ReceivePhase::Connect,
        ensures
            final(self).wf(),
            match outcome {
                Dial::Connected => step is Ok && final(self)@ == (ReceiveView {
                    phase: ReceivePhase::FetchSizes,
                    ..old(self)@
                }),
                Dial::Refused(source) => final(self)@ == old(self)@.failed() && fails(
                    step,
                    true,
                    ReceiveFault::Connect(source@),
                ),
                Dial::TimedOut => final(self)@ == old(self)@.failed() && fails(
                    step,
                    true,
                    ReceiveFault::ConnectTimeout,
                ),
            },
    {
        match outcome {
            Dial::Connected => {
                self.phase = ReceivePhase::FetchSizes;
                Ok(())
            },
            Dial::Refused(source) => {
                self.phase = ReceivePhase::Failed;
                Err(Failure { announce: true, error: ReceiveError::Connect { source } })
            },
            Dial::TimedOut => {
                self.phase = ReceivePhase::Failed;
                Err(Failure { announce: true, error: ReceiveError::ConnectTimeout })
            },
        }
    }

    /// The payload total is known (see [`payload_total`]), or not.
    pub fn sizes_fetched(&mut self, outcome: Result<u64, String>) -> (step: Result<(), Failure>)
        requires
            old(self).wf(),
            old(self)@.phase == ReceivePhase::FetchSizes,
        ensures
            final(self).wf(),
            match outcome {
                Ok(total) => step is Ok && final(self)@ == (ReceiveView {
                    phase: ReceivePhase::Download,
                    total,
                    ..old(self)@
                }),
                Err(source) => final(self)@ == old(self)@.failed() && fails(
                    step,
                    true,
                    ReceiveFault::Sizes(source@),
                ),
            },
    {
        match outcome {
            Ok(total) => {
                self.phase = ReceivePhase::Download;
                self.total = total;
                Ok(())
            },
            Err(source) => {
                self.phase = ReceivePhase::Failed;
                Err(Failure { announce: true, error: ReceiveError::Sizes { source } })
            },
        }
    }

    /// The bytes that count as received at an offset of the download: what was there before and
    /// what came, but never more than the total.
    pub open spec fn received_at(view: ReceiveView, offset: u64) -> u64 {
        if view.local_bytes + offset <= view.total {
            (view.local_bytes + offset) as u64
        } else {
            view.total
        }
    }

    /// Whether what was there before and what came up to an offset still add up to something that
    /// fits.
    pub fn offset_fits(&self, offset: u64) -> (fits: bool)
        ensures
            fits == (self@.local_bytes + offset <= u64::MAX),
    {
        self.local_bytes <= u64::MAX - offset
    }

    /// Takes a report of the download. Progress that is new to the record is saved before it is
    /// shown.
    pub fn downloaded(&mut self, item: DownloadItem, now: u128) -> (step: Result<
        Option<ReceiveProgress>,
        Failure,
    >)
        requires
            old(self).wf(),
            old(self)@.phase == ReceivePhase::Download,
            item matches DownloadItem::Progress(offset) ==> old(self)@.local_bytes + offset
                <= u64::MAX,
        ensures
            final(self).wf(),
            match item {
                DownloadItem::Progress(offset) => {
                    let received = Self::received_at(old(self)@, offset);
                    match old(self)@.record {
                        Some(record) if record.bytes_received != received => {
                            &&& step matches Ok(None)
                            &&& final(self)@ == (ReceiveView {
                                phase: ReceivePhase::SaveProgress,
                                received,
                                record: Some(
                                    RecordView {
                                        bytes_received: received,
                                        updated_at: now,
                                        ..record
                                    },
                                ),
                                ..old(self)@
                            })
                        },
                        _ => {
                            &&& step matches Ok(
                                Some(ReceiveProgress::Downloading { received: r, total }),
                            )
                            &&& r == received
                            &&& total == old(self)@.total
                            &&& final(self)@ == (ReceiveView { received, ..old(self)@ })
                        },
                    }
                },
                DownloadItem::Done | DownloadItem::Ended => step matches Ok(None) && final(self)@
                    == (ReceiveView { phase: ReceivePhase::LoadCollection, ..old(self)@ }),
                DownloadItem::Error(source) => final(self)@ == old(self)@.failed() && fails(
                    step,
                    true,
                    ReceiveFault::Download(source@),
                ),
            },
    {
        match item {
            DownloadItem::Progress(offset) => {
                let reached: u64 = self.local_bytes + offset;
                let received: u64 = if reached <= self.total {
                    reached
                } else {
                    self.total
                };
                self.received = received;
                let unsaved: bool = match &self.record {
                    Some(record) => record.bytes_received != received,
                    None => false,
                };
                if unsaved {
                    self.update_record(now, received, None, false);
                    self.phase = ReceivePhase::SaveProgress;
                    Ok(None)
                } else {
                    Ok(Some(ReceiveProgress::Downloading { received, total: self.total }))
                }
            },
            DownloadItem::Done | DownloadItem::Ended => {
                self.phase = ReceivePhase::LoadCollection;
                Ok(None)
            },
            DownloadItem::Error(source) => {
                self.phase = ReceivePhase::Failed;
                Err(Failure { announce: true, error: ReceiveError::Download { source } })
            },
        }
    }

    /// Writes a new state of the receive into its record.
    fn update_record(
        &mut self,
        now: u128,
        bytes_received: u64,
        exported: Option<String>,
        done: bool,
    )
        requires
            old(self).record is Some,
        ensures
            final(self).record is Some,
            ({
                let before = old(self).record->0@;
                final(self).record->0@ == RecordView {
                    bytes_received,
                    updated_at: now,
                    exported_files: match exported {
                        Some(name) => before.exported_files.push(name@),
                        None => before.exported_files,
                    },
                    status: if done {
                        TransferStatus::Done
                    } else {
                        before.status
                    },
                    ..before
                }
            }),
            *final(self) == (Receive { record: final(self).record, ..*old(self) }),
    {
        let mut taken: Option<TransferRecord> = None;
        core::mem::swap(&mut self.record, &mut taken);
        match taken {
            Some(mut record) => {
                record.bytes_received = bytes_received;
                record.updated_at = now;
                if done {
                    record.status = TransferStatus::Done;
                }
                match exported {
                    Some(name) => {
                        let ghost before = record.exported_files@;
                        record.exported_files.push(name);
                        assert(texts(record.exported_files@) =~= texts(before).push(name@));
                    },
                    None => {},
                }
                self.record = Some(record);
            },
            None => {},
        }
    }

    /// The failure to save the record.
    fn save_failure(&self, source: String) -> (failure: Failure)
        requires
            self.record is Some,
        ensures
            !failure.announce,
            failure.error@ == ReceiveFault::RecordSave(self@.record_path(), source@),
    {
        let path = match &self.record {
            Some(record) => self.records.path(&record.collection_hash),
            None => String::new(),
        };
        Failure { announce: false, error: ReceiveError::RecordSave { path, source } }
    }

    /// The record with the new progress has been saved, or not.
    pub fn progress_saved(&mut self, outcome: Result<(), String>) -> (step: Result<
        Option<ReceiveProgress>,
        Failure,
    >)
        requires
            old(self).wf(),
            old(self)@.phase == ReceivePhase::SaveProgress,
        ensures
            final(self).wf(),
            match outcome {
                Ok(()) => {
                    &&& step matches Ok(Some(ReceiveProgress::Downloading { received, total }))
                    &&& received == old(self)@.received
                    &&& total == old(self)@.total
                    &&& final(self)@ == (ReceiveView {
                        phase: ReceivePhase::Download,
                        saved: old(self)@.record,
                        ..old(self)@
                    })
                },
                Err(source) => final(self)@ == old(self)@.failed() && fails(
                    step,
                    false,
                    ReceiveFault::RecordSave(old(self)@.record_path(), source@),
                ),
            },
    {
        match outcome {
            Ok(()) => {
                self.note_saved();
                self.phase = ReceivePhase::Download;
                Ok(
                    Some(
                        ReceiveProgress::Downloading { received: self.received, total: self.total },
                    ),
                )
            },
            Err(source) => {
                let failure = self.save_failure(source);
                self.phase = ReceivePhase::Failed;
                Err(failure)
            },
        }
    }

    /// Settles the fate of the current file, which was not exported now.
    fn pass_current(&mut self, existing: bool)
        requires
            old(self).wf(),
            old(self).at < old(self).files@.len(),
            if existing {
                !old(self).overwrite
            } else {
                old(self)@.current_is_exported()
            },
        ensures
            final(self)@ == old(self)@.with_fate(
                if existing {
                    FileFate::SkippedExisting
                } else {
                    FileFate::AlreadyExported
                },
            ),
            final(self).counted(),
            final(self).at == old(self).at + 1,
            final(self).record == old(self).record,
    {
        let ghost before = self.fates@;
        let ghost fate = if existing {
            FileFate::SkippedExisting
        } else {
            FileFate::AlreadyExported
        };
        let ghost skipped_before = self.skipped@;
        assert(self.at < self.files.len());
        proof {
            assert(before.push(fate).drop_last() =~= before);
            collection_size_grows(self.files@, self.at + 1, self.files@.len() as int);
        }
        self.skipped_bytes = self.skipped_bytes + self.files[self.at].size;
        if existing {
            let name = self.files[self.at].name.clone();
            self.skipped.push(name);
            assert(texts(self.skipped@) =~= texts(skipped_before).push(name@));
        }
        self.at = self.at + 1;
        self.fates = Ghost(before.push(fate));
    }

    /// The part of `wf` that does not depend on the phase.
    spec fn counted(self) -> bool {
        (Receive { phase: ReceivePhase::Failed, ..self }).wf()
    }

    /// Moves on to the next file that is to be exported.
    fn next_file(&mut self, now: u128) -> (step: Result<Option<ReceiveProgress>, Failure>)
        requires
            old(self).counted(),
            old(self)@.saved == old(self)@.record,
        ensures
            final(self).wf(),
            final(self)@ == old(self)@.at_next_file(now),
            moved_on(step, final(self)@),
    {
        let ghost start = self@;
        self.phase = ReceivePhase::Failed;
        while self.at < self.files.len()
            invariant
                self.wf(),
                self.phase == ReceivePhase::Failed,
                self@.saved == self@.record,
                start == old(self)@,
                (ReceiveView { phase: start.phase, ..self@ }).at_next_file(now)
                    == start.at_next_file(now),
            decreases self.files@.len() - self.at,
        {
            let ghost here = ReceiveView { phase: start.phase, ..self@ };
            let name = self.files[self.at].name.clone();
            let exported: bool = match &self.record {
                Some(record) => contains_text(&record.exported_files, name.as_str()),
                None => false,
            };
            assert(exported == here.current_is_exported());
            if exported {
                self.pass_current(false);
                assert((ReceiveView { phase: start.phase, ..self@ }) =~= here.with_fate(
                    FileFate::AlreadyExported,
                ));
            } else {
                match export_target(self.root.as_str(), name.as_str()) {
                    Ok(target) => {
                        self.phase = ReceivePhase::CheckTarget;
                        self.target = target;
                        return Ok(None);
                    },
                    Err(error) => {
                        assert(self@ == here.failed());
                        return Err(Failure { announce: false, error });
                    },
                }
            }
        }
        if self.record.is_some() {
            let bytes_received: u64 = match &self.record {
                Some(record) => record.bytes_received,
                None => 0,
            };
            self.update_record(now, bytes_received, None, true);
            self.phase = ReceivePhase::SaveDone;
            Ok(None)
        } else {
            self.phase = ReceivePhase::Finished;
            Ok(Some(ReceiveProgress::Done { bytes: self.bytes, files: self.exported }))
        }
    }

    /// The collection has been loaded, or not. The sizes of its files must add up to something
    /// that fits (see [`collection_fits`]).
    pub fn collection_loaded(
        &mut self,
        outcome: Result<Vec<CollectionFile>, String>,
        now: u128,
    ) -> (step: Result<Option<ReceiveProgress>, Failure>)
        requires
            old(self).wf(),
            old(self)@.phase == ReceivePhase::LoadCollection,
            outcome matches Ok(files) ==> collection_size(files@, files@.len() as int) <= u64::MAX,
        ensures
            final(self).wf(),
            match outcome {
                Ok(files) => {
                    &&& final(self)@ == (ReceiveView { files: files@, ..old(self)@ }).at_next_file(
                        now,
                    )
                    &&& moved_on(step, final(self)@)
                },
                Err(source) => final(self)@ == old(self)@.failed() && fails(
                    step,
                    false,
                    ReceiveFault::LoadCollection(source@),
                ),
            },
    {
        match outcome {
            Ok(files) => {
                assert(self.fates@ =~= Seq::empty());
                self.files = files;
                self.next_file(now)
            },
            Err(source) => {
                self.phase = ReceivePhase::Failed;
                Err(Failure { announce: false, error: ReceiveError::LoadCollection { source } })
            },
        }
    }

    /// Starts the export of the current file.
    fn start_export(&mut self) -> (step: Result<Option<ReceiveProgress>, Failure>)
        requires
            old(self).wf(),
            old(self).at < old(self).files@.len(),
            old(self)@.saved == old(self)@.record,
        ensures
            final(self).wf(),
            final(self)@ == old(self)@.exporting(),
            step matches Ok(Some(ReceiveProgress::Exporting { file })) && file@
                == old(self)@.current().name@,
    {
        self.phase = ReceivePhase::Export;
        self.size = 0;
        self.export_done = false;
        Ok(Some(ReceiveProgress::Exporting { file: self.files[self.at].name.clone() }))
    }

    /// It is known what stands at the current file's target. Over a file, this file is skipped, or
    /// the other is to be removed; a directory is in the way whether files are to be overwritten
    /// or not, and stays.
    pub fn target_checked(&mut self, standing: Standing, now: u128) -> (step: Result<
        Option<ReceiveProgress>,
        Failure,
    >)
        requires
            old(self).wf(),
            old(self)@.phase == ReceivePhase::CheckTarget,
        ensures
            final(self).wf(),
            match standing {
                Standing::Nothing => {
                    &&& final(self)@ == old(self)@.exporting()
                    &&& step matches Ok(Some(ReceiveProgress::Exporting { file }))
                    &&& file@ == old(self)@.current().name@
                },
                Standing::Directory => {
                    &&& final(self)@ == old(self)@.failed()
                    &&& fails(
                        step,
                        false,
                        ReceiveFault::RemoveExisting(old(self)@.target, "is a directory"@),
                    )
                },
                Standing::NotDirectory => if old(self)@.overwrite {
                    &&& step matches Ok(None)
                    &&& final(self)@ == (ReceiveView {
                        phase: ReceivePhase::RemoveExisting,
                        ..old(self)@
                    })
                } else {
                    &&& final(self)@ == old(self)@.with_fate(
                        FileFate::SkippedExisting,
                    ).at_next_file(now)
                    &&& moved_on(step, final(self)@)
                },
            },
    {
        match standing {
            Standing::Nothing => self.start_export(),
            Standing::Directory => {
                self.phase = ReceivePhase::Failed;
                Err(
                    Failure {
                        announce: false,
                        error: ReceiveError::RemoveExisting {
                            path: self.target.clone(),
                            source: "is a directory".to_owned(),
                        },
                    },
                )
            },
            Standing::NotDirectory => {
                if self.overwrite {
                    self.phase = ReceivePhase::RemoveExisting;
                    return Ok(None);
                }
                self.pass_current(true);
                self.next_file(now)
            },
        }
    }

    /// What stood at the current file's target has been removed, or not.
    pub fn existing_removed(&mut self, outcome: Result<(), String>) -> (step: Result<
        Option<ReceiveProgress>,
        Failure,
    >)
        requires
            old(self).wf(),
            old(self)@.phase == ReceivePhase::RemoveExisting,
        ensures
            final(self).wf(),
            match outcome {
                Ok(()) => {
                    &&& final(self)@ == old(self)@.exporting()
                    &&& step matches Ok(Some(ReceiveProgress::Exporting { file }))
                    &&& file@ == old(self)@.current().name@
                },
                Err(source) => final(self)@ == old(self)@.failed() && fails(
                    step,
                    false,
                    ReceiveFault::RemoveExisting(old(self)@.target, source@),
                ),
            },
    {
        match outcome {
            Ok(()) => self.start_export(),
            Err(source) => {
                self.phase = ReceivePhase::Failed;
                Err(
                    Failure {
                        announce: false,
                        error: ReceiveError::RemoveExisting { path: self.target.clone(), source },
                    },
                )
            },
        }
    }

    /// Whether the bytes of the current file still fit in the count of exported bytes.
    pub fn fits(&self) -> (fits: bool)
        requires
            self.wf(),
        ensures
            fits == (exported_bytes(self@.fates) + self@.size <= u64::MAX),
    {
        self.bytes <= u64::MAX - self.size
    }

    /// Takes a report of the export of the current file. A file counts as exported once the
    /// reports end after one that says it is done; with a record it is noted there and saved.
    pub fn exported(&mut self, item: ExportItem, now: u128) -> (step: Result<
        Option<ReceiveProgress>,
        Failure,
    >)
        requires
            old(self).wf(),
            old(self)@.phase == ReceivePhase::Export,
            item is Ended ==> exported_bytes(old(self)@.fates) + old(self)@.size <= u64::MAX,
        ensures
            final(self).wf(),
            match item {
                ExportItem::Size(size) => step matches Ok(None) && final(self)@ == (ReceiveView {
                    size,
                    ..old(self)@
                }),
                ExportItem::CopyProgress => step matches Ok(None) && final(self)@ == old(self)@,
                ExportItem::Done => step matches Ok(None) && final(self)@ == (ReceiveView {
                    export_done: true,
                    ..old(self)@
                }),
                ExportItem::Error(source) => final(self)@ == old(self)@.failed() && fails(
                    step,
                    true,
                    ReceiveFault::Export(old(self)@.current().name@, source@),
                ),
                ExportItem::Ended => if !old(self)@.export_done {
                    final(self)@ == old(self)@.failed() && fails(
                        step,
                        false,
                        ReceiveFault::ExportStreamEnded(old(self)@.current().name@),
                    )
                } else {
                    let after = old(self)@.with_fate(FileFate::Exported(old(self)@.size));
                    match old(self)@.record {
                        Some(record) => step matches Ok(None) && final(self)@ == (ReceiveView {
                            phase: ReceivePhase::SaveExported,
                            record: Some(
                                RecordView {
                                    exported_files: record.exported_files.push(
                                        old(self)@.current().name@,
                                    ),
                                    updated_at: now,
                                    ..record
                                },
                            ),
                            ..after
                        }),
                        None => final(self)@ == after.at_next_file(now) && moved_on(
                            step,
                            final(self)@,
                        ),
                    }
                },
            },
    {
        match item {
            ExportItem::Size(size) => {
                self.size = size;
                Ok(None)
            },
            ExportItem::CopyProgress => Ok(None),
            ExportItem::Done => {
                self.export_done = true;
                Ok(None)
            },
            ExportItem::Error(source) => {
                self.phase = ReceivePhase::Failed;
                Err(
                    Failure {
                        announce: true,
                        error: ReceiveError::Export {
                            file: self.files[self.at].name.clone(),
                            source,
                        },
                    },
                )
            },
            ExportItem::Ended => {
                let name = self.files[self.at].name.clone();
                if !self.export_done {
                    self.phase = ReceivePhase::Failed;
                    return Err(
                        Failure {
                            announce: false,
                            error: ReceiveError::ExportStreamEnded { file: name },
                        },
                    );
                }
                let ghost before = self.fates@;
                assert(self.at < self.files.len());
                proof {
                    let fate = FileFate::Exported(self.size);
                    assert(before.push(fate).drop_last() =~= before);
                    collection_size_grows(self.files@, self.at + 1, self.files@.len() as int);
                }
                self.bytes = self.bytes + self.size;
                self.exported = self.exported + 1;
                self.at = self.at + 1;
                self.fates = Ghost(before.push(FileFate::Exported(self.size)));
                if self.record.is_some() {
                    let bytes_received: u64 = match &self.record {
                        Some(record) => record.bytes_received,
                        None => 0,
                    };
                    let ghost noted = self.record->0@.exported_files;
                    self.update_record(now, bytes_received, Some(name), false);
                    proof {
                        noted_stays_noted(noted, name@);
                    }
                    self.phase = ReceivePhase::SaveExported;
                    Ok(None)
                } else {
                    self.next_file(now)
                }
            },
        }
    }

    /// The record with the exported file has been saved, or not.
    pub fn export_saved(&mut self, outcome: Result<(), String>, now: u128) -> (step: Result<
        Option<ReceiveProgress>,
        Failure,
    >)
        requires
            old(self).wf(),
            old(self)@.phase == ReceivePhase::SaveExported,
        ensures
            final(self).wf(),
            match outcome {
                Ok(()) => final(self)@ == (ReceiveView {
                    saved: old(self)@.record,
                    ..old(self)@
                }).at_next_file(now) && moved_on(step, final(self)@),
                Err(source) => final(self)@ == old(self)@.failed() && fails(
                    step,
                    false,
                    ReceiveFault::RecordSave(old(self)@.record_path(), source@),
                ),
            },
    {
        match outcome {
            Ok(()) => {
                self.note_saved();
                self.next_file(now)
            },
            Err(source) => {
                let failure = self.save_failure(source);
                self.phase = ReceivePhase::Failed;
                Err(failure)
            },
        }
    }

    /// The record has been saved as done, or not.
    pub fn done_saved(&mut self, outcome: Result<(), String>) -> (step: Result<
        Option<ReceiveProgress>,
        Failure,
    >)
        requires
            old(self).wf(),
            old(self)@.phase == ReceivePhase::SaveDone,
        ensures
            final(self).wf(),
            match outcome {
                Ok(()) => {
                    &&& final(self)@ == (ReceiveView {
                        phase: ReceivePhase::DeleteRecord,
                        saved: old(self)@.record,
                        ..old(self)@
                    })
                    &&& step matches Ok(Some(event))
                    &&& final(self)@.is_done_event(event)
                },
                Err(source) => final(self)@ == old(self)@.failed() && fails(
                    step,
                    false,
                    ReceiveFault::RecordSave(old(self)@.record_path(), source@),
                ),
            },
    {
        match outcome {
            Ok(()) => {
                self.note_saved();
                self.phase = ReceivePhase::DeleteRecord;
                Ok(Some(ReceiveProgress::Done { bytes: self.bytes, files: self.exported }))
            },
            Err(source) => {
                let failure = self.save_failure(source);
                self.phase = ReceivePhase::Failed;
                Err(failure)
            },
        }
    }

    /// The record has been deleted, or not: the receive is complete either way.
    pub fn record_deleted(&mut self, deleted: bool)
        requires
            old(self).wf(),
            old(self)@.phase == ReceivePhase::DeleteRecord,
        ensures
            final(self).wf(),
            final(self)@ == (ReceiveView {
                phase: ReceivePhase::Finished,
                saved: if deleted {
                    None
                } else {
                    old(self)@.saved
                },
                ..old(self)@
            }),
    {
        if deleted {
            self.saved = Ghost(None);
        }
        self.phase = ReceivePhase::Finished;
    }

    /// The result of a completed receive. Every file of the collection is accounted for once: as
    /// exported, or among the skipped.
    pub fn result(self) -> (result: TransferResult)
        requires
            self.wf(),
            self@.phase == ReceivePhase::Finished,
        ensures
            self@.fates.len() == self@.files.len(),
            result.bytes == exported_bytes(self@.fates),
            result.files == exported_count(self@.fates),
            texts(result.skipped@) == skipped_names(self@.files, self@.fates),
            result.skipped_bytes == passed_bytes(self@.files, self@.fates),
            result.files + result.skipped_files == self@.files.len(),
            self@.consistent(),
    {
        TransferResult {
            bytes: self.bytes,
            files: self.exported,
            skipped: self.skipped,
            skipped_bytes: self.skipped_bytes,
            skipped_files: self.at - self.exported,
        }
    }
}

proof fn noted_stays_noted(noted: Seq<Seq<char>>, name: Seq<char>)
    ensures
        noted.push(name).contains(name),
        forall|other: Seq<char>| noted.contains(other) ==> #[trigger] noted.push(name).contains(other),
{
    assert(noted.push(name)[noted.len() as int] == name);
    assert forall|other: Seq<char>| noted.contains(other) implies #[trigger] noted.push(
        name,
    ).contains(other) by {
        let k = choose|k: int| 0 <= k < noted.len() && noted[k] == other;
        assert(noted.push(name)[k] == other);
    }
}

/// At every step of a receive, what became of the files agrees with the options and the record:
/// with overwriting nothing is skipped because it exists, and whatever has been exported is noted
/// in the record.
pub proof fn exports_are_noted_in_the_record(receive: Receive)
    requires
        receive.wf(),
    ensures
        receive@.consistent(),
{
}

/// Whenever no save is due, the record stands on disk as it is, until it is deleted at the end: a
/// receive that breaks off at such a step, and also one that fails there, leaves a record that
/// notes everything that has been exported.
pub proof fn the_record_is_on_disk(receive: Receive)
    requires
        receive.wf(),
        receive@.phase != ReceivePhase::Failed,
        receive@.phase != ReceivePhase::Finished,
        !save_is_due(receive@.phase),
    ensures
        receive@.saved == receive@.record,
        receive@.failed().saved == receive@.record,
        receive@.saved matches Some(record) ==> forall|k: int|
            0 <= k < receive@.fates.len() && (#[trigger] receive@.fates[k] is Exported)
                ==> record.exported_files.contains(receive@.files[k].name@),
{
}

/// What the record notes as exported is never exported again: a receive that goes on to the target
/// of a file goes on to one that the record does not note.
pub proof fn noted_files_are_not_exported_again(view: ReceiveView, now: u128)
    requires
        view.at_next_file(now).phase == ReceivePhase::CheckTarget,
    ensures
        view.at_next_file(now).record == view.record,
        view.at_next_file(now).saved == view.saved,
        view.at_next_file(now).fates.len() < view.files.len(),
        !view.at_next_file(now).current_is_exported(),
    decreases view.files.len() - view.fates.len(),
{
    if view.fates.len() < view.files.len() && view.current_is_exported() {
        noted_files_are_not_exported_again(view.with_fate(FileFate::AlreadyExported), now);
    }
}

/// The bytes shown as received never exceed the total and never go back while the download goes
/// on.
pub proof fn received_bytes_are_clamped_and_grow(view: ReceiveView, earlier: u64, later: u64)
    requires
        earlier <= later,
    ensures
        Receive::received_at(view, earlier) <= Receive::received_at(view, later) <= view.total,
{
}

/// A complete receive accounts for the whole collection: where every export reports the size that
/// the collection gives, the exported and the skipped bytes add up to the sizes of all files.
pub proof fn complete_receive_accounts_for_all_bytes(
    files: Seq<CollectionFile>,
    fates: Seq<FileFate>,
)
    requires
        fates.len() <= files.len(),
        forall|i: int|
            0 <= i < fates.len() ==> (#[trigger] fates[i] matches FileFate::Exported(size) ==> size
                == files[i].size),
    ensures
        exported_bytes(fates) + passed_bytes(files, fates) == collection_size(
            files,
            fates.len() as int,
        ),
    decreases fates.len(),
{
    if fates.len() > 0 {
        let before = fates.drop_last();
        assert(forall|i: int| 0 <= i < before.len() ==> before[i] == fates[i]);
        complete_receive_accounts_for_all_bytes(files, before);
        assert(fates.last() == fates[fates.len() - 1]);
    }
}

} // verus!
