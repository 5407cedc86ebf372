//! Laws of transfer records: which is resumed from, and how it is stored.
use vstd::prelude::*;

use crate::laws::flows::two_digits;
use crate::pairing::handshake::{hex_digit_value, hex_text};
use crate::text::{decimal_string, texts};
use crate::transfer::paths::joined;
use crate::transfer::record::{
    from_stored, record_to_use, records_have_their_own_paths, resumable, stored_record_reads_back,
    to_stored, RecordStore, StoredRecord, TransferRecord, TransferStatus,
};

verus! {

broadcast use vstd::string::group_string_axioms;

/// A record is that of a receive exactly if both the collection and the target dir are the same.
pub proof fn a_record_belongs_to_one_receive(
    record: &TransferRecord,
    hash: [u8; 32],
    dir: &str,
    yes: bool,
)
    requires
        call_ensures(TransferRecord::matches, (record, hash, dir), yes),
    ensures
        yes <==> record.collection_hash@ == hash@ && record.target_dir@ == dir@,
{
}

/// A receive goes on from its record where there is one, with what it notes, and otherwise starts
/// with nothing received and nothing exported.
pub proof fn a_receive_goes_on_from_its_record(
    read: Option<TransferRecord>,
    hash: [u8; 32],
    dir: &str,
    now: u128,
    record: TransferRecord,
    found: Option<TransferRecord>,
)
    requires
        call_ensures(record_to_use, (read, hash, dir, now), record),
        call_ensures(resumable, (read, hash, dir), found),
    ensures
        ({
            let known = read matches Some(r) && r.collection_hash@ == hash@ && r.target_dir@ == dir@;
            &&& found is Some <==> known
            &&& known ==> read == Some(record) && found == Some(record)
            &&& !known ==> {
                &&& record.bytes_received == 0
                &&& record.exported_files@.len() == 0
                &&& record.status == TransferStatus::InProgress
                &&& record.updated_at == now
            }
            &&& record.collection_hash@ == hash@
            &&& record.target_dir@ == dir@
        }),
{
    if !(read matches Some(r) && r.collection_hash@ == hash@ && r.target_dir@ == dir@) {
        assert(texts(record.exported_files@).len() == 0);
    }
}

/// A record that was stored is the same when it is read again, in everything that it notes.
pub proof fn a_stored_record_reads_back(
    record: &TransferRecord,
    stored: StoredRecord,
    read: Option<TransferRecord>,
)
    requires
        call_ensures(to_stored, (record,), Some(stored)),
        call_ensures(from_stored, (stored,), read),
    ensures
        read matches Some(again) && {
            &&& again.collection_hash@ == record.collection_hash@
            &&& again.target_dir@ == record.target_dir@
            &&& again.bytes_received == record.bytes_received
            &&& again.status == record.status
            &&& texts(again.exported_files@) == texts(record.exported_files@)
            &&& again.updated_at == record.updated_at
        },
{
    stored_record_reads_back(record@);
}

/// A record is stored with the hash in hexadecimal digits and the time in seconds and nanoseconds,
/// and everything else as it is; it can be stored as long as the seconds fit.
pub proof fn a_record_is_stored_as_it_is(
    record: &TransferRecord,
    stored: Option<StoredRecord>,
    b: int,
)
    requires
        call_ensures(to_stored, (record,), stored),
        0 <= b < 32,
    ensures
        stored is Some <==> record.updated_at < 0x1_0000_0000_0000_0000 * 1_000_000_000,
        stored matches Some(s) ==> {
            &&& s.collection_hash@.len() == 64
            &&& two_digits(
                record.collection_hash@[b],
                s.collection_hash@[2 * b],
                s.collection_hash@[2 * b + 1],
            )
            &&& s.target_dir@ == record.target_dir@
            &&& s.bytes_received == record.bytes_received
            &&& s.status == record.status
            &&& texts(s.exported_files@) == texts(record.exported_files@)
            &&& s.updated_secs * 1_000_000_000 + s.updated_nanos == record.updated_at
            &&& s.updated_nanos < 1_000_000_000
        },
{
    assert((2 * b) / 2 == b && (2 * b) % 2 == 0 && (2 * b + 1) / 2 == b && (2 * b + 1) % 2 == 1);
}

/// A record whose hash is not one is none.
pub proof fn a_record_without_a_hash_is_none(
    stored: StoredRecord,
    record: Option<TransferRecord>,
    i: int,
)
    requires
        call_ensures(from_stored, (stored,), record),
        stored.collection_hash@.len() != 64 || (0 <= i < 64 && !('0' <= stored.collection_hash@[i]
            <= '9') && !('a' <= stored.collection_hash@[i] <= 'f') && !('A'
            <= stored.collection_hash@[i] <= 'F')),
    ensures
        record is None,
{
    if stored.collection_hash@.len() == 64 {
        assert(hex_digit_value(stored.collection_hash@[i]) is None);
    }
}

/// The record of a collection stands in the directory of transfers under the collection's hash,
/// so that no two collections share one.
pub proof fn each_collection_has_its_record(
    data_dir: &str,
    store: RecordStore,
    hash: [u8; 32],
    path: String,
    other: [u8; 32],
    elsewhere: String,
)
    requires
        call_ensures(RecordStore::new, (data_dir,), store),
        call_ensures(RecordStore::path, (&store, &hash), path),
        call_ensures(RecordStore::path, (&store, &other), elsewhere),
    ensures
        path@ == joined(joined(data_dir@, "transfers"@), hex_text(hash@) + ".json"@),
        path@ == elsewhere@ ==> hash@ == other@,
{
    if path@ == elsewhere@ {
        records_have_their_own_paths(store@, hash@, other@);
    }
}

/// A record is written beside its place first: under a hidden name that names the hash, the
/// process and a count, and that is never the place of a record.
pub proof fn a_record_is_written_beside_its_place(
    store: &RecordStore,
    hash: [u8; 32],
    pid: u32,
    n: u64,
    path: String,
    process: String,
    count: String,
)
    requires
        call_ensures(RecordStore::tmp_path, (store, &hash, pid, n), path),
        call_ensures(decimal_string, (pid as u64,), process),
        call_ensures(decimal_string, (n,), count),
    ensures
        path@ == joined(
            store@,
            "."@ + hex_text(hash@) + "."@ + process@ + "-"@ + count@ + ".tmp"@,
        ),
{
    reveal_strlit(".");
    reveal_strlit("-");
    assert("."@ =~= seq!['.']);
    assert("-"@ =~= seq!['-']);
}

} // verus!
