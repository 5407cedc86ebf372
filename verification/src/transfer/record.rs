//! Transfer records: one per receive in progress, so that it can be resumed.
//!
//! A record is convenience state. A missing, unreadable or mismatched one means that there is
//! nothing to resume, and the receive starts afresh.
use vstd::prelude::*;

use crate::pairing::handshake::{
    array_of_32, hex_bytes, hex_decode, hex_encode, hex_reads_back, hex_text, is_hex,
};
use crate::text::{
    decimal, decimal_holds_digits, decimal_is_injective, decimal_string, find_behind, same_text,
    texts,
};
use crate::transfer::paths::{join_path, joined};

verus! {

broadcast use vstd::string::group_string_axioms;

/// Subdirectory of the data dir holding transfer records.
pub const TRANSFERS_DIR: &'static str = "transfers";

/// Lifecycle state of a recorded receive.
#[derive(Debug, Clone, Copy, PartialEq, Eq, Structural)]
pub enum TransferStatus {
    /// Download or export is not finished; a later run resumes it.
    InProgress,
    /// Every file is exported; the record is deleted once the receive returns.
    Done,
}

/// Persistent state of one receive, keyed by the collection hash.
#[derive(Debug, Clone, PartialEq, Eq)]
pub struct TransferRecord {
    /// Hash of the collection this record belongs to.
    pub collection_hash: [u8; 32],
    /// Target dir the files are exported into, as it was given.
    pub target_dir: String,
    /// Payload bytes shown as received.
    pub bytes_received: u64,
    /// Lifecycle state of the receive.
    pub status: TransferStatus,
    /// Collection names whose files were already exported.
    pub exported_files: Vec<String>,
    /// Last time the record was written, in nanoseconds since the epoch.
    pub updated_at: u128,
}

/// What a record says.
#[verifier::ext_equal]
pub struct RecordView {
    pub collection_hash: Seq<u8>,
    pub target_dir: Seq<char>,
    pub bytes_received: u64,
    pub status: TransferStatus,
    pub exported_files: Seq<Seq<char>>,
    pub updated_at: u128,
}

impl View for TransferRecord {
    type V = RecordView;

    open spec fn view(&self) -> RecordView {
        RecordView {
            collection_hash: self.collection_hash@,
            target_dir: self.target_dir@,
            bytes_received: self.bytes_received,
            status: self.status,
            exported_files: texts(self.exported_files@),
            updated_at: self.updated_at,
        }
    }
}

impl RecordView {
    /// Whether the record belongs to the receive of a collection into a target dir.
    pub open spec fn belongs_to(self, collection_hash: Seq<u8>, target_dir: Seq<char>) -> bool {
        self.collection_hash == collection_hash && self.target_dir == target_dir
    }
}

/// Whether two hashes are the same.
fn same_hash(a: &[u8; 32], b: &[u8; 32]) -> (same: bool)
    ensures
        same == (a@ == b@),
{
    let mut i: usize = 0;
    while i < 32
        invariant
            i <= 32,
            forall|j: int| 0 <= j < i ==> a@[j] == b@[j],
        decreases 32 - i,
    {
        if a[i] != b[i] {
            return false;
        }
        i += 1;
    }
    assert(a@ =~= b@);
    true
}

impl TransferRecord {
    /// A fresh record for a receive of `collection_hash` into `target_dir`.
    pub fn new(collection_hash: [u8; 32], target_dir: &str, now: u128) -> (record: Self)
        ensures
            record@ == (RecordView {
                collection_hash: collection_hash@,
                target_dir: target_dir@,
                bytes_received: 0,
                status: TransferStatus::InProgress,
                exported_files: Seq::empty(),
                updated_at: now,
            }),
    {
        let exported_files: Vec<String> = Vec::new();
        assert(texts(exported_files@) =~= Seq::empty());
        TransferRecord {
            collection_hash,
            target_dir: target_dir.to_owned(),
            bytes_received: 0,
            status: TransferStatus::InProgress,
            exported_files,
            updated_at: now,
        }
    }

    /// Whether the record belongs to the receive of a collection into a target dir. A record for
    /// another target dir is not resumed.
    pub fn matches(&self, collection_hash: [u8; 32], target_dir: &str) -> (yes: bool)
        ensures
            yes == self@.belongs_to(collection_hash@, target_dir@),
    {
        same_hash(&self.collection_hash, &collection_hash) && same_text(
            self.target_dir.as_str(),
            target_dir,
        )
    }
}

/// The record to resume from, given what was read back: one that belongs to this receive, and
/// nothing otherwise.
pub fn resumable(read: Option<TransferRecord>, collection_hash: [u8; 32], target_dir: &str) -> (out:
    Option<TransferRecord>)
    ensures
        out == match read {
            Some(record) => if record@.belongs_to(collection_hash@, target_dir@) {
                Some(record)
            } else {
                None
            },
            None => None,
        },
{
    match read {
        Some(record) => {
            if record.matches(collection_hash, target_dir) {
                Some(record)
            } else {
                None
            }
        },
        None => None,
    }
}

/// The record that a receive goes on with: the one that can be resumed, or a fresh one.
pub fn record_to_use(
    read: Option<TransferRecord>,
    collection_hash: [u8; 32],
    target_dir: &str,
    now: u128,
) -> (record: TransferRecord)
    ensures
        record@.belongs_to(collection_hash@, target_dir@),
        match read {
            Some(known) if known@.belongs_to(collection_hash@, target_dir@) => record == known,
            _ => record@ == (RecordView {
                collection_hash: collection_hash@,
                target_dir: target_dir@,
                bytes_received: 0,
                status: TransferStatus::InProgress,
                exported_files: Seq::empty(),
                updated_at: now,
            }),
        },
{
    match resumable(read, collection_hash, target_dir) {
        Some(record) => record,
        None => TransferRecord::new(collection_hash, target_dir, now),
    }
}

/// A record as it stands in its file: the hash in hex, and the time split into seconds and
/// nanoseconds.
#[derive(Debug, Clone, PartialEq, Eq)]
pub struct StoredRecord {
    pub collection_hash: String,
    pub target_dir: String,
    pub bytes_received: u64,
    pub status: TransferStatus,
    pub exported_files: Vec<String>,
    pub updated_secs: u64,
    pub updated_nanos: u32,
}

/// What a stored record says.
#[verifier::ext_equal]
pub struct StoredView {
    pub collection_hash: Seq<char>,
    pub target_dir: Seq<char>,
    pub bytes_received: u64,
    pub status: TransferStatus,
    pub exported_files: Seq<Seq<char>>,
    pub updated_secs: u64,
    pub updated_nanos: u32,
}

impl View for StoredRecord {
    type V = StoredView;

    open spec fn view(&self) -> StoredView {
        StoredView {
            collection_hash: self.collection_hash@,
            target_dir: self.target_dir@,
            bytes_received: self.bytes_received,
            status: self.status,
            exported_files: texts(self.exported_files@),
            updated_secs: self.updated_secs,
            updated_nanos: self.updated_nanos,
        }
    }
}

/// Nanoseconds in a second.
pub const NANOS_PER_SEC: u128 = 1000000000;

impl RecordView {
    /// Whether the time of the record can be stored.
    pub open spec fn storable(self) -> bool {
        self.updated_at / NANOS_PER_SEC <= u64::MAX
    }

    /// The record as it stands in its file.
    pub open spec fn stored(self) -> StoredView {
        StoredView {
            collection_hash: hex_text(self.collection_hash),
            target_dir: self.target_dir,
            bytes_received: self.bytes_received,
            status: self.status,
            exported_files: self.exported_files,
            updated_secs: (self.updated_at / NANOS_PER_SEC) as u64,
            updated_nanos: (self.updated_at % NANOS_PER_SEC) as u32,
        }
    }
}

impl StoredView {
    /// The record that stands in a file; none where the hash is not 32 bytes in hex.
    pub open spec fn record(self) -> Option<RecordView> {
        if is_hex(self.collection_hash) && self.collection_hash.len() == 64 {
            Some(
                RecordView {
                    collection_hash: hex_bytes(self.collection_hash),
                    target_dir: self.target_dir,
                    bytes_received: self.bytes_received,
                    status: self.status,
                    exported_files: self.exported_files,
                    updated_at: (self.updated_secs * NANOS_PER_SEC + self.updated_nanos) as u128,
                },
            )
        } else {
            None
        }
    }
}

/// The record as it is to stand in its file; none where its time cannot be stored.
pub fn to_stored(record: &TransferRecord) -> (stored: Option<StoredRecord>)
    ensures
        match stored {
            Some(stored) => record@.storable() && stored@ == record@.stored(),
            None => !record@.storable(),
        },
{
    let secs: u128 = record.updated_at / NANOS_PER_SEC;
    if secs > u64::MAX as u128 {
        return None;
    }
    let exported_files = copy_texts(&record.exported_files);
    Some(
        StoredRecord {
            collection_hash: hex_encode(record.collection_hash.as_slice()),
            target_dir: record.target_dir.clone(),
            bytes_received: record.bytes_received,
            status: record.status,
            exported_files,
            updated_secs: secs as u64,
            updated_nanos: (record.updated_at % NANOS_PER_SEC) as u32,
        },
    )
}

/// The record that stands in a file; none where the hash is not 32 bytes in hex.
pub fn from_stored(stored: StoredRecord) -> (record: Option<TransferRecord>)
    ensures
        match record {
            Some(record) => stored@.record() == Some(record@),
            None => stored@.record() is None,
        },
{
    let hash: Vec<u8> = match hex_decode(stored.collection_hash.as_str()) {
        Ok(hash) => hash,
        Err(_) => {
            return None;
        },
    };
    match array_of_32(&hash) {
        Some(collection_hash) => Some(
            TransferRecord {
                collection_hash,
                target_dir: stored.target_dir,
                bytes_received: stored.bytes_received,
                status: stored.status,
                exported_files: stored.exported_files,
                updated_at: stored.updated_secs as u128 * NANOS_PER_SEC
                    + stored.updated_nanos as u128,
            },
        ),
        None => None,
    }
}

fn copy_texts(list: &Vec<String>) -> (copy: Vec<String>)
    ensures
        texts(copy@) == texts(list@),
{
    let mut copy: Vec<String> = Vec::new();
    let mut i: usize = 0;
    while i < list.len()
        invariant
            i <= list@.len(),
            copy@.len() == i,
            forall|j: int| 0 <= j < i ==> copy@[j]@ == list@[j]@,
        decreases list@.len() - i,
    {
        copy.push(list[i].clone());
        i += 1;
    }
    assert(texts(copy@) =~= texts(list@));
    copy
}

/// What loading finds of what was read back: a record that belongs to the receive.
pub open spec fn found(
    read: Option<RecordView>,
    collection_hash: Seq<u8>,
    target_dir: Seq<char>,
) -> Option<RecordView> {
    match read {
        Some(record) => if record.belongs_to(collection_hash, target_dir) {
            Some(record)
        } else {
            None
        },
        None => None,
    }
}

/// A records directory after the given records were saved in it, one after the other: each takes
/// the place of what stood at its path.
pub open spec fn saved_in(
    files: Map<Seq<char>, StoredView>,
    dir: Seq<char>,
    records: Seq<RecordView>,
) -> Map<Seq<char>, StoredView>
    decreases records.len(),
{
    if records.len() == 0 {
        files
    } else {
        let record = records.last();
        saved_in(files, dir, records.drop_last()).insert(
            joined(dir, record_name(record.collection_hash)),
            record.stored(),
        )
    }
}

/// What loading finds in a records directory.
pub open spec fn loaded_from(
    files: Map<Seq<char>, StoredView>,
    dir: Seq<char>,
    collection_hash: Seq<u8>,
    target_dir: Seq<char>,
) -> Option<RecordView> {
    let path = joined(dir, record_name(collection_hash));
    found(
        if files.contains_key(path) {
            files[path].record()
        } else {
            None
        },
        collection_hash,
        target_dir,
    )
}

/// A record reads back from its stored form with every field as it was.
pub proof fn stored_record_reads_back(record: RecordView)
    requires
        record.collection_hash.len() == 32,
        record.storable(),
    ensures
        record.stored().record() == Some(record),
{
    hex_reads_back(record.collection_hash);
    let secs = record.updated_at / NANOS_PER_SEC;
    assert(secs * NANOS_PER_SEC + record.updated_at % NANOS_PER_SEC == record.updated_at);
    assert(record.stored().record()->0 =~= record);
}

/// What was saved last for a collection is what loading finds, with every field as it was, for the
/// target dir it was saved for and for no other, whatever was saved for other collections.
pub proof fn saved_record_is_loaded_again(
    files: Map<Seq<char>, StoredView>,
    dir: Seq<char>,
    record: RecordView,
    later: Seq<RecordView>,
    target_dir: Seq<char>,
)
    requires
        record.collection_hash.len() == 32,
        record.storable(),
        forall|i: int|
            0 <= i < later.len() ==> (#[trigger] later[i]).collection_hash != record.collection_hash,
    ensures
        loaded_from(
            saved_in(saved_in(files, dir, seq![record]), dir, later),
            dir,
            record.collection_hash,
            target_dir,
        ) == if target_dir == record.target_dir {
            Some(record)
        } else {
            None
        },
    decreases later.len(),
{
    stored_record_reads_back(record);
    let first = saved_in(files, dir, seq![record]);
    reveal_with_fuel(saved_in, 2);
    if later.len() > 0 {
        let front = later.drop_last();
        let last = later.last();
        assert(last == later[later.len() - 1]);
        assert(forall|i: int| 0 <= i < front.len() ==> front[i] == later[i]);
        saved_record_is_loaded_again(files, dir, record, front, target_dir);
        if joined(dir, record_name(last.collection_hash)) == joined(
            dir,
            record_name(record.collection_hash),
        ) {
            records_have_their_own_paths(dir, last.collection_hash, record.collection_hash);
        }
    }
}

/// The file name of a record.
pub open spec fn record_name(hash: Seq<u8>) -> Seq<char> {
    hex_text(hash) + ".json"@
}

/// The file name that a record is written under before it takes its place.
pub open spec fn temporary_name(hash: Seq<u8>, pid: nat, n: nat) -> Seq<char> {
    seq!['.'] + hex_text(hash) + seq!['.'] + decimal(pid) + seq!['-'] + decimal(n) + ".tmp"@
}

/// Where transfer records are kept.
#[derive(Debug, Clone)]
pub struct RecordStore {
    dir: String,
}

impl View for RecordStore {
    type V = Seq<char>;

    closed spec fn view(&self) -> Seq<char> {
        self.dir@
    }
}

impl RecordStore {
    /// The store below a data dir.
    pub fn new(data_dir: &str) -> (store: Self)
        ensures
            store@ == joined(data_dir@, "transfers"@),
    {
        RecordStore { dir: join_path(data_dir, "transfers") }
    }

    /// The directory holding the records.
    pub fn dir(&self) -> (dir: &str)
        ensures
            dir@ == self@,
    {
        self.dir.as_str()
    }

    /// The path of the record for `hash`.
    pub fn path(&self, hash: &[u8; 32]) -> (path: String)
        ensures
            path@ == joined(self@, record_name(hash@)),
    {
        let mut name = hex_encode(hash.as_slice());
        name.append(".json");
        join_path(self.dir.as_str(), name.as_str())
    }

    /// The path that the record for `hash` is written to before it is moved into its place. The
    /// process and a counter in it keep concurrent writes apart.
    pub fn tmp_path(&self, hash: &[u8; 32], pid: u32, n: u64) -> (path: String)
        ensures
            path@ == joined(self@, temporary_name(hash@, pid as nat, n as nat)),
    {
        let mut name = String::new();
        name.push('.');
        name.append(hex_encode(hash.as_slice()).as_str());
        name.push('.');
        name.append(decimal_string(pid as u64).as_str());
        name.push('-');
        name.append(decimal_string(n).as_str());
        name.append(".tmp");
        assert(name@ =~= temporary_name(hash@, pid as nat, n as nat));
        join_path(self.dir.as_str(), name.as_str())
    }
}

/// How creating a file that must not exist yet went.
#[derive(Debug)]
pub enum Creation {
    /// The file was created.
    Created,
    /// Something stands there already.
    Exists(String),
    /// It failed for another reason.
    Failed(String),
}

/// What to do after an attempt to create a temporary file.
#[derive(Debug)]
pub enum CreationStep {
    /// Write to the file.
    Write,
    /// Remove what a crashed run left behind, and try once more.
    RemoveAndRetry,
    /// Give up.
    Fail(String),
}

/// Decides after an attempt to create a temporary file: only the first attempt may find a stale
/// file in its way.
pub fn after_creation(first_attempt: bool, creation: Creation) -> (step: CreationStep)
    ensures
        step == match creation {
            Creation::Created => CreationStep::Write,
            Creation::Exists(reason) => if first_attempt {
                CreationStep::RemoveAndRetry
            } else {
                CreationStep::Fail(reason)
            },
            Creation::Failed(reason) => CreationStep::Fail(reason),
        },
{
    match creation {
        Creation::Created => CreationStep::Write,
        Creation::Exists(reason) => {
            if first_attempt {
                CreationStep::RemoveAndRetry
            } else {
                CreationStep::Fail(reason)
            }
        },
        Creation::Failed(reason) => CreationStep::Fail(reason),
    }
}

/// Joining different names to one directory gives different paths.
pub proof fn joined_is_injective(dir: Seq<char>, a: Seq<char>, b: Seq<char>)
    requires
        joined(dir, a) == joined(dir, b),
    ensures
        a == b,
{
    let skip = joined(dir, a).len() - a.len();
    assert(joined(dir, a).len() == joined(dir, b).len());
    assert(joined(dir, a).skip(skip) =~= a);
    assert(joined(dir, b).skip(skip) =~= b);
}

/// Every collection has a record of its own: two hashes that share a path are the same hash.
pub proof fn records_have_their_own_paths(dir: Seq<char>, a: Seq<u8>, b: Seq<u8>)
    requires
        joined(dir, record_name(a)) == joined(dir, record_name(b)),
    ensures
        a == b,
{
    joined_is_injective(dir, record_name(a), record_name(b));
    hex_reads_back(a);
    hex_reads_back(b);
    let n = hex_text(a).len() as int;
    assert(record_name(a).len() == record_name(b).len());
    assert(record_name(a).take(n) =~= hex_text(a));
    assert(record_name(b).take(n) =~= hex_text(b));
}

/// Concurrent writes never share a temporary file, and no temporary file is in the way of a
/// record: the path of a temporary file tells its hash, its process and its counter, and is the
/// path of no record.
pub proof fn temporary_files_never_collide(
    dir: Seq<char>,
    a: Seq<u8>,
    pid_a: nat,
    n_a: nat,
    b: Seq<u8>,
    pid_b: nat,
    n_b: nat,
)
    requires
        a.len() == 32,
        b.len() == 32,
    ensures
        joined(dir, temporary_name(a, pid_a, n_a)) != joined(dir, record_name(b)),
        joined(dir, temporary_name(a, pid_a, n_a)) == joined(dir, temporary_name(b, pid_b, n_b))
            ==> a == b && pid_a == pid_b && n_a == n_b,
{
    hex_reads_back(a);
    hex_reads_back(b);
    let x = temporary_name(a, pid_a, n_a);
    let y = temporary_name(b, pid_b, n_b);
    if joined(dir, x) == joined(dir, record_name(b)) {
        joined_is_injective(dir, x, record_name(b));
        assert(x[0] == '.');
        assert(record_name(b)[0] == hex_text(b)[0]);
        assert(hex_text(b)[0] != '.');
    }
    if joined(dir, x) == joined(dir, y) {
        joined_is_injective(dir, x, y);
        assert(x.subrange(1, 65) =~= hex_text(a));
        assert(y.subrange(1, 65) =~= hex_text(b));
        let rest_a = decimal(n_a) + ".tmp"@;
        let rest_b = decimal(n_b) + ".tmp"@;
        let tail_a = decimal(pid_a).push('-') + rest_a;
        let tail_b = decimal(pid_b).push('-') + rest_b;
        assert(x.skip(66) =~= tail_a);
        assert(y.skip(66) =~= tail_b);
        decimal_holds_digits(pid_a, '-');
        decimal_holds_digits(pid_b, '-');
        find_behind(decimal(pid_a), '-', rest_a);
        find_behind(decimal(pid_b), '-', rest_b);
        let cut = decimal(pid_a).len() as int;
        assert(tail_a.take(cut) =~= decimal(pid_a));
        assert(tail_b.take(cut) =~= decimal(pid_b));
        decimal_is_injective(pid_a, pid_b);
        assert(tail_a.skip(cut + 1) =~= rest_a);
        assert(tail_b.skip(cut + 1) =~= rest_b);
        let end = decimal(n_a).len() as int;
        assert(rest_a.len() == rest_b.len());
        assert(rest_a.take(end) =~= decimal(n_a));
        assert(rest_b.take(end) =~= decimal(n_b));
        decimal_is_injective(n_a, n_b);
    }
}

} // verus!
