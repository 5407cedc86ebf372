//! Laws of a receive: its progress, its resumption, and what becomes of each file.
use vstd::prelude::*;

use crate::laws::files::unsafe_stretch;
use crate::laws::text::delimited;
use crate::pairing::handshake::hex_text;
use crate::text::texts;
use crate::transfer::engine::{RequestProgress, RequestUpdate, Standing};
use crate::transfer::paths::joined;
use crate::transfer::receive::{
    collection_fits, collection_size, exported_bytes, exported_count, passed_bytes, payload_total,
    safe_name, skipped_names, sum_behind_first, CollectionFile, Dial, DownloadItem, ExportItem,
    Failure, FileFate, LocalState, Receive, ReceiveError, ReceiveOptions, ReceivePhase,
    ReceiveProgress, ReceiveView, TransferResult,
};
use crate::transfer::record::{RecordView, TransferRecord, TransferStatus};
use crate::transfer::send::{
    total_size, Import, ImportItem, PreparedFile, PreparedTransfer, ProgressEvent,
};

verus! {

broadcast use vstd::string::group_string_axioms;

/// The sum of a list of numbers.
pub open spec fn sum(numbers: Seq<int>) -> int {
    numbers.fold_left(0, |a: int, b: int| a + b)
}

proof fn sum_of_more(numbers: Seq<int>, number: int)
    ensures
        sum(numbers.push(number)) == sum(numbers) + number,
{
    assert(numbers.push(number).drop_last() =~= numbers);
}

/// A report at an offset counts what the store held before and what has come since: exactly that
/// while it is below the total, and the total from then on. The record is brought to the same
/// number before anything is shown, and what is shown is that number, of the total.
pub proof fn progress_counts_what_is_there(
    receive: &mut Receive,
    offset: u64,
    now: u128,
    step: Result<Option<ReceiveProgress>, Failure>,
)
    requires
        call_ensures(Receive::downloaded, (receive, DownloadItem::Progress(offset), now), step),
        old(receive)@.phase == ReceivePhase::Download,
    ensures
        old(receive)@.local_bytes + offset < old(receive)@.total ==> final(receive)@.received
            == old(receive)@.local_bytes + offset,
        old(receive)@.local_bytes + offset >= old(receive)@.total ==> final(receive)@.received
            == old(receive)@.total,
        final(receive)@.local_bytes == old(receive)@.local_bytes,
        final(receive)@.total == old(receive)@.total,
        match (old(receive)@.record, final(receive)@.record) {
            (None, None) => true,
            (Some(before), Some(after)) => {
                &&& after.bytes_received == final(receive)@.received
                &&& after.exported_files == before.exported_files
                &&& after.status == before.status
                &&& after.collection_hash == before.collection_hash
                &&& after.target_dir == before.target_dir
            },
            _ => false,
        },
        match step {
            Ok(Some(ReceiveProgress::Downloading { received, total })) => received
                == final(receive)@.received && total == old(receive)@.total
                && final(receive)@.phase == ReceivePhase::Download && final(receive)@.record
                == old(receive)@.record,
            Ok(None) => final(receive)@.phase == ReceivePhase::SaveProgress
                && final(receive)@.record is Some,
            _ => false,
        },
        final(receive)@.phase == ReceivePhase::SaveProgress ==> (old(receive)@.record
            matches Some(before) && before.bytes_received != final(receive)@.received),
{
}

/// While what is there is below the total, more that has come shows as strictly more.
pub proof fn more_shows_as_more(
    one: &mut Receive,
    offset: u64,
    step: Result<Option<ReceiveProgress>, Failure>,
    other: &mut Receive,
    further: u64,
    later: Result<Option<ReceiveProgress>, Failure>,
    now: u128,
)
    requires
        call_ensures(Receive::downloaded, (one, DownloadItem::Progress(offset), now), step),
        call_ensures(Receive::downloaded, (other, DownloadItem::Progress(further), now), later),
        old(one)@ == old(other)@,
        offset < further,
        old(one)@.local_bytes + offset < old(one)@.total,
    ensures
        final(one)@.received < final(other)@.received <= old(one)@.total,
{
}

/// Progress that had to be saved first is shown once it is, and a record that cannot be saved ends
/// the receive.
pub proof fn saved_progress_is_shown(
    receive: &mut Receive,
    outcome: Result<(), String>,
    step: Result<Option<ReceiveProgress>, Failure>,
)
    requires
        call_ensures(Receive::progress_saved, (receive, outcome), step),
    ensures
        outcome is Ok ==> (step matches Ok(Some(ReceiveProgress::Downloading { received, total }))
            && received == old(receive)@.received && total == old(receive)@.total),
        outcome is Ok ==> final(receive)@.phase == ReceivePhase::Download
            && final(receive)@.saved == old(receive)@.record,
        outcome is Err ==> step is Err && final(receive)@.phase == ReceivePhase::Failed,
        final(receive)@.record == old(receive)@.record,
        final(receive)@.received == old(receive)@.received,
{
}

/// A download that is complete, or that has nothing more to report, goes on to the collection; one
/// that fails ends the receive, and says so first.
pub proof fn a_download_ends_in_the_collection(
    receive: &mut Receive,
    item: DownloadItem,
    now: u128,
    step: Result<Option<ReceiveProgress>, Failure>,
)
    requires
        call_ensures(Receive::downloaded, (receive, item, now), step),
        !(item is Progress),
    ensures
        final(receive)@.record == old(receive)@.record,
        item is Done || item is Ended ==> step matches Ok(None),
        item is Done || item is Ended ==> final(receive)@.phase == ReceivePhase::LoadCollection,
        item matches DownloadItem::Error(source) ==> final(receive)@.phase == ReceivePhase::Failed
            && (step matches Err(failure) && failure.announce && (failure.error
            matches ReceiveError::Download { source: s } && s@ == source@)),
{
}

/// What the store holds decides: a complete collection is not fetched again, and otherwise the
/// sender is dialed with the bytes that are there counted.
pub proof fn a_complete_collection_is_not_fetched(
    receive: &mut Receive,
    local: LocalState,
    step: Result<Option<ReceiveProgress>, Failure>,
)
    requires
        call_ensures(Receive::local_state_read, (receive, Ok::<_, String>(local)), step),
    ensures
        local.complete ==> final(receive)@.phase == ReceivePhase::LoadCollection && step
            == Ok::<_, Failure>(None::<ReceiveProgress>),
        !local.complete ==> final(receive)@.phase == ReceivePhase::Connect
            && final(receive)@.local_bytes == local.bytes && (step matches Ok(
            Some(ReceiveProgress::Connecting),
        )),
        final(receive)@.record == old(receive)@.record,
{
}

/// The total that a download is measured by is the one that was fetched.
pub proof fn the_total_is_what_was_fetched(
    receive: &mut Receive,
    total: u64,
    step: Result<(), Failure>,
)
    requires
        call_ensures(Receive::sizes_fetched, (receive, Ok::<_, String>(total)), step),
    ensures
        step is Ok,
        final(receive)@.total == total,
        final(receive)@.local_bytes == old(receive)@.local_bytes,
        final(receive)@.phase == ReceivePhase::Download,
        final(receive)@.record == old(receive)@.record,
{
}

proof fn behind_first(sizes: Seq<u64>)
    ensures
        sizes.len() > 0 ==> sum_behind_first(sizes) == sum(
            sizes.skip(1).map_values(|size: u64| size as int),
        ),
    decreases sizes.len(),
{
    if sizes.len() > 1 {
        behind_first(sizes.drop_last());
        let front = sizes.drop_last().skip(1).map_values(|size: u64| size as int);
        let all = sizes.skip(1).map_values(|size: u64| size as int);
        assert(all =~= front.push(sizes.last() as int));
        sum_of_more(front, sizes.last() as int);
    } else if sizes.len() == 1 {
        assert(sizes.skip(1).map_values(|size: u64| size as int) =~= Seq::empty());
    }
}

/// The payload of a collection is the sum of all its blobs but the first, which only lists the
/// others; there is no total exactly where the sum does not fit.
pub proof fn the_payload_is_all_but_the_first(sizes: &Vec<u64>, total: Option<u64>)
    requires
        call_ensures(payload_total, (sizes,), total),
        sizes@.len() > 0,
    ensures
        total is Some <==> sum(sizes@.skip(1).map_values(|size: u64| size as int)) <= u64::MAX,
        total is Some ==> total->0 == sum(sizes@.skip(1).map_values(|size: u64| size as int)),
{
    behind_first(sizes@);
}

/// Where moving on to the next file leads: the fates that were settled stay, the files passed over
/// on the way are noted in the record, and the record changes at most in its status.
proof fn moving_on(view: ReceiveView, now: u128)
    requires
        view.fates.len() <= view.files.len(),
    ensures
        ({
            let after = view.at_next_file(now);
            &&& view.fates.len() <= after.fates.len() <= view.files.len()
            &&& after.files == view.files
            &&& after.root == view.root
            &&& after.overwrite == view.overwrite
            &&& forall|k: int|
                0 <= k < view.fates.len() ==> #[trigger] after.fates[k] == view.fates[k]
            &&& forall|k: int|
                view.fates.len() <= k < after.fates.len() ==> #[trigger] after.fates[k]
                    is AlreadyExported && (view.record matches Some(record)
                    && record.exported_files.contains(view.files[k].name@))
            &&& match after.phase {
                ReceivePhase::CheckTarget => {
                    &&& after.fates.len() < view.files.len()
                    &&& !(view.record matches Some(record) && record.exported_files.contains(
                        after.current().name@,
                    ))
                    &&& safe_name(after.current().name@)
                    &&& after.target == joined(view.root, after.current().name@)
                    &&& after.record == view.record
                },
                ReceivePhase::Failed => {
                    &&& after.fates.len() < view.files.len()
                    &&& !safe_name(after.current().name@)
                    &&& after.record == view.record
                },
                ReceivePhase::SaveDone => {
                    &&& after.fates.len() == view.files.len()
                    &&& view.record matches Some(record)
                    &&& after.record == Some(
                        RecordView { status: TransferStatus::Done, updated_at: now, ..record },
                    )
                },
                ReceivePhase::Finished => after.fates.len() == view.files.len()
                    && view.record is None && after.record is None,
                _ => false,
            }
        }),
    decreases view.files.len() - view.fates.len(),
{
    if view.fates.len() < view.files.len() && view.current_is_exported() {
        let next = view.with_fate(FileFate::AlreadyExported);
        moving_on(next, now);
        let after = view.at_next_file(now);
        assert(after == next.at_next_file(now));
        assert forall|k: int| 0 <= k < view.fates.len() implies #[trigger] after.fates[k]
            == view.fates[k] by {
            assert(next.fates[k] == view.fates[k]);
        }
        assert forall|k: int| view.fates.len() <= k < after.fates.len() implies #[trigger] after.fates[k]
            is AlreadyExported && (view.record matches Some(record)
            && record.exported_files.contains(view.files[k].name@)) by {
            if k == view.fates.len() {
                assert(next.fates[k] is AlreadyExported);
            }
        }
    }
}

/// Whether the record notes a file as exported.
pub open spec fn noted(record: Option<RecordView>, file: CollectionFile) -> bool {
    record matches Some(known) && known.exported_files.contains(file.name@)
}

/// Whether file `k` is the first from `start` on that a record does not note, or the end if it
/// notes all of them.
pub open spec fn first_left(
    files: Seq<CollectionFile>,
    record: Option<RecordView>,
    start: int,
    k: int,
) -> bool {
    &&& start <= k <= files.len()
    &&& forall|j: int| start <= j < k ==> noted(record, #[trigger] files[j])
    &&& k < files.len() ==> !noted(record, files[k])
}

/// Whether a receive has gone on to file `k`: everything before it is settled, with what the record
/// notes passed over. The receive is then at the target of that file, below the root, or has failed
/// over a name that leads elsewhere; behind the last file its record is done, or, without one, it
/// is finished and says what was exported.
pub open spec fn went_on_to(
    before: ReceiveView,
    settled: Seq<FileFate>,
    k: int,
    now: u128,
    after: ReceiveView,
    step: Result<Option<ReceiveProgress>, Failure>,
) -> bool {
    &&& after.files == before.files
    &&& after.root == before.root
    &&& after.overwrite == before.overwrite
    &&& after.fates.len() == k
    &&& forall|j: int| 0 <= j < settled.len() ==> #[trigger] after.fates[j] == settled[j]
    &&& forall|j: int| settled.len() <= j < k ==> #[trigger] after.fates[j] is AlreadyExported
    &&& if k == before.files.len() {
        match before.record {
            Some(record) => {
                &&& after.phase == ReceivePhase::SaveDone
                &&& after.record matches Some(done)
                &&& done.status == TransferStatus::Done
                &&& done.updated_at == now
                &&& done.exported_files == record.exported_files
                &&& done.bytes_received == record.bytes_received
                &&& done.collection_hash == record.collection_hash
                &&& done.target_dir == record.target_dir
                &&& step matches Ok(None)
            },
            None => {
                &&& after.phase == ReceivePhase::Finished
                &&& after.record is None
                &&& step matches Ok(Some(ReceiveProgress::Done { bytes, files }))
                &&& bytes == sum(after.fates.map_values(|fate: FileFate| bytes_exported(fate)))
                &&& files == after.fates.filter(|fate: FileFate| fate is Exported).len()
            },
        }
    } else {
        let name = before.files[k].name@;
        let fine = forall|from: int, to: int| #[trigger]
            delimited(name, '/', from, to) ==> !unsafe_stretch(name, from, to);
        &&& after.record == before.record
        &&& if fine {
            &&& after.phase == ReceivePhase::CheckTarget
            &&& step matches Ok(None)
            &&& after.target == joined(before.root, name)
        } else {
            &&& after.phase == ReceivePhase::Failed
            &&& step matches Err(failure)
            &&& !failure.announce
            &&& failure.error matches ReceiveError::InvalidCollectionName { name: shown }
            &&& shown@ == name
        }
    }
}

proof fn going_on(
    before: ReceiveView,
    start: ReceiveView,
    k: int,
    now: u128,
    step: Result<Option<ReceiveProgress>, Failure>,
)
    requires
        start.files == before.files,
        start.root == before.root,
        start.overwrite == before.overwrite,
        start.record == before.record,
        start.fates.len() <= start.files.len(),
        first_left(start.files, start.record, start.fates.len() as int, k),
        crate::transfer::receive::moved_on(step, start.at_next_file(now)),
    ensures
        went_on_to(before, start.fates, k, now, start.at_next_file(now), step),
{
    moving_on(start, now);
    let after = start.at_next_file(now);
    assert(after.fates.len() == k) by {
        if after.fates.len() > k {
            assert(after.fates[k] is AlreadyExported);
            assert(noted(start.record, start.files[k]));
        }
        if after.fates.len() < k {
            assert(noted(start.record, start.files[after.fates.len() as int]));
            assert(after.phase == ReceivePhase::Failed);
            not_passed_over(start, now);
        }
    }
    counts_of(after.fates);
    if k < start.files.len() {
        crate::laws::files::safe_names(start.files[k].name@);
    }
}

/// A loaded collection is exported from its first file that the record does not note.
pub proof fn a_receive_resumes_at_the_first_file_not_noted(
    receive: &mut Receive,
    files: Vec<CollectionFile>,
    now: u128,
    step: Result<Option<ReceiveProgress>, Failure>,
    k: int,
)
    requires
        call_ensures(
            Receive::collection_loaded,
            (receive, Ok::<_, String>(files), now),
            step,
        ),
        old(receive)@.fates.len() == 0,
        first_left(files@, old(receive)@.record, 0, k),
    ensures
        final(receive)@.files == files@,
        went_on_to(
            (ReceiveView { files: files@, ..old(receive)@ }),
            Seq::empty(),
            k,
            now,
            final(receive)@,
            step,
        ),
{
    let view = ReceiveView { files: files@, ..receive@ };
    assert(view.fates =~= Seq::empty());
    going_on(view, view, k, now, step);
}

proof fn not_passed_over(view: ReceiveView, now: u128)
    requires
        view.fates.len() <= view.files.len(),
        view.at_next_file(now).phase == ReceivePhase::Failed,
    ensures
        !(view.record matches Some(record) && record.exported_files.contains(
            view.at_next_file(now).current().name@,
        )),
    decreases view.files.len() - view.fates.len(),
{
    if view.fates.len() < view.files.len() && view.current_is_exported() {
        not_passed_over(view.with_fate(FileFate::AlreadyExported), now);
    }
}

/// What stands at a file's target decides: nothing, and it is exported; a file, and it is either
/// to be removed or this one is skipped, as the options say; a directory, and the receive fails.
pub proof fn an_existing_target_is_skipped_or_overwritten(
    receive: &mut Receive,
    standing: Standing,
    now: u128,
    step: Result<Option<ReceiveProgress>, Failure>,
    k: int,
)
    requires
        call_ensures(Receive::target_checked, (receive, standing, now), step),
        old(receive)@.fates.len() < old(receive)@.files.len(),
        first_left(old(receive)@.files, old(receive)@.record, old(receive)@.fates.len() as int + 1, k),
    ensures
        final(receive)@.files == old(receive)@.files,
        ({
            let at = old(receive)@.fates.len() as int;
            let name = old(receive)@.files[at].name@;
            match standing {
                Standing::Nothing => {
                    &&& final(receive)@.phase == ReceivePhase::Export
                    &&& final(receive)@.fates == old(receive)@.fates
                    &&& final(receive)@.target == old(receive)@.target
                    &&& final(receive)@.record == old(receive)@.record
                    &&& final(receive)@.size == 0 && !final(receive)@.export_done
                    &&& step matches Ok(Some(ReceiveProgress::Exporting { file }))
                    &&& file@ == name
                },
                Standing::Directory => {
                    &&& final(receive)@.phase == ReceivePhase::Failed
                    &&& final(receive)@.fates == old(receive)@.fates
                    &&& step matches Err(failure)
                    &&& !failure.announce
                    &&& failure.error matches ReceiveError::RemoveExisting { path, source }
                    &&& path@ == old(receive)@.target && source@ == "is a directory"@
                },
                Standing::NotDirectory => if old(receive)@.overwrite {
                    &&& final(receive)@.phase == ReceivePhase::RemoveExisting
                    &&& final(receive)@.fates == old(receive)@.fates
                    &&& final(receive)@.target == old(receive)@.target
                    &&& final(receive)@.record == old(receive)@.record
                    &&& step matches Ok(None)
                } else {
                    went_on_to(
                        old(receive)@,
                        old(receive)@.fates.push(FileFate::SkippedExisting),
                        k,
                        now,
                        final(receive)@,
                        step,
                    )
                },
            }
        }),
{
    if standing == Standing::NotDirectory && !receive@.overwrite {
        let skipped = receive@.with_fate(FileFate::SkippedExisting);
        going_on(receive@, skipped, k, now, step);
    }
}

/// A target is exported over only once what stood there is gone.
pub proof fn removing_comes_before_exporting(
    receive: &mut Receive,
    outcome: Result<(), String>,
    step: Result<Option<ReceiveProgress>, Failure>,
)
    requires
        call_ensures(Receive::existing_removed, (receive, outcome), step),
    ensures
        final(receive)@.fates == old(receive)@.fates,
        final(receive)@.target == old(receive)@.target,
        final(receive)@.record == old(receive)@.record,
        outcome is Ok ==> {
            &&& final(receive)@.phase == ReceivePhase::Export
            &&& final(receive)@.size == 0 && !final(receive)@.export_done
            &&& step matches Ok(Some(ReceiveProgress::Exporting { file }))
            &&& file@ == old(receive)@.files[old(receive)@.fates.len() as int].name@
        },
        outcome matches Err(why) ==> {
            &&& final(receive)@.phase == ReceivePhase::Failed
            &&& step matches Err(failure)
            &&& !failure.announce
            &&& failure.error matches ReceiveError::RemoveExisting { path, source }
            &&& path@ == old(receive)@.target && source@ == why@
        },
{
}

/// A file counts as exported, with the size that was reported for it last, when the reports end
/// after one that it is done; only then. With a record that is noted and saved next; without one
/// the receive goes on to the next file.
pub proof fn a_file_is_exported_once_it_is_done(
    receive: &mut Receive,
    item: ExportItem,
    now: u128,
    step: Result<Option<ReceiveProgress>, Failure>,
    k: int,
)
    requires
        call_ensures(Receive::exported, (receive, item, now), step),
        old(receive)@.fates.len() < old(receive)@.files.len(),
        first_left(old(receive)@.files, old(receive)@.record, old(receive)@.fates.len() as int + 1, k),
    ensures
        ({
            let at = old(receive)@.fates.len() as int;
            let name = old(receive)@.files[at].name@;
            let settled = old(receive)@.fates.push(FileFate::Exported(old(receive)@.size));
            if item is Ended && old(receive)@.export_done {
                match old(receive)@.record {
                    Some(before) => {
                        &&& step matches Ok(None)
                        &&& final(receive)@.phase == ReceivePhase::SaveExported
                        &&& final(receive)@.fates == settled
                        &&& final(receive)@.record matches Some(after)
                        &&& after.exported_files == before.exported_files.push(name)
                        &&& after.bytes_received == before.bytes_received
                        &&& after.status == before.status
                        &&& after.updated_at == now
                        &&& after.collection_hash == before.collection_hash
                        &&& after.target_dir == before.target_dir
                    },
                    None => went_on_to(old(receive)@, settled, k, now, final(receive)@, step),
                }
            } else {
                &&& final(receive)@.fates == old(receive)@.fates
                &&& final(receive)@.record == old(receive)@.record
                &&& item is Ended ==> {
                    &&& final(receive)@.phase == ReceivePhase::Failed
                    &&& step matches Err(failure)
                    &&& !failure.announce
                    &&& failure.error matches ReceiveError::ExportStreamEnded { file }
                    &&& file@ == name
                }
                &&& item matches ExportItem::Error(why) ==> {
                    &&& final(receive)@.phase == ReceivePhase::Failed
                    &&& step matches Err(failure)
                    &&& failure.announce
                    &&& failure.error matches ReceiveError::Export { file, source }
                    &&& file@ == name && source@ == why@
                }
                &&& !(item is Ended) && !(item is Error) ==> (step matches Ok(None))
                &&& !(item is Ended) && !(item is Error) ==> final(receive)@.phase
                    == old(receive)@.phase
                &&& item matches ExportItem::Size(size) ==> final(receive)@.size == size
                &&& item is Done ==> final(receive)@.export_done
                &&& !(item is Done) ==> final(receive)@.export_done == old(receive)@.export_done
                &&& !(item is Size) ==> final(receive)@.size == old(receive)@.size
            }
        }),
{
    if item is Ended && receive@.export_done && receive@.record is None {
        let settled = receive@.with_fate(FileFate::Exported(receive@.size));
        going_on(receive@, settled, k, now, step);
    }
}

/// The bytes that a fate adds to what was exported.
pub open spec fn bytes_exported(fate: FileFate) -> int {
    match fate {
        FileFate::Exported(size) => size as int,
        _ => 0,
    }
}

proof fn counts_of(fates: Seq<FileFate>)
    ensures
        exported_bytes(fates) == sum(fates.map_values(|fate: FileFate| bytes_exported(fate))),
        exported_count(fates) == fates.filter(|fate: FileFate| fate is Exported).len(),
    decreases fates.len(),
{
    reveal(Seq::filter);
    if fates.len() > 0 {
        let front = fates.drop_last();
        counts_of(front);
        let numbers = front.map_values(|fate: FileFate| bytes_exported(fate));
        assert(fates.map_values(|fate: FileFate| bytes_exported(fate)) =~= numbers.push(
            bytes_exported(fates.last()),
        ));
        sum_of_more(numbers, bytes_exported(fates.last()));
    }
}

/// The bytes of a file that was not exported now.
pub open spec fn bytes_passed(files: Seq<CollectionFile>, fates: Seq<FileFate>, k: int) -> int {
    if fates[k] is Exported {
        0
    } else {
        files[k].size as int
    }
}

proof fn passed_of(files: Seq<CollectionFile>, fates: Seq<FileFate>)
    requires
        fates.len() <= files.len(),
    ensures
        passed_bytes(files, fates) == sum(
            Seq::new(fates.len(), |k: int| bytes_passed(files, fates, k)),
        ),
    decreases fates.len(),
{
    let all = Seq::new(fates.len(), |k: int| bytes_passed(files, fates, k));
    if fates.len() > 0 {
        let front = fates.drop_last();
        passed_of(files, front);
        let before = Seq::new(front.len(), |k: int| bytes_passed(files, front, k));
        assert(all =~= before.push(bytes_passed(files, fates, fates.len() - 1)));
        sum_of_more(before, bytes_passed(files, fates, fates.len() - 1));
    } else {
        assert(all =~= Seq::empty());
    }
}

proof fn skipped_of(files: Seq<CollectionFile>, fates: Seq<FileFate>, k: int)
    requires
        0 <= k < fates.len() <= files.len(),
    ensures
        fates[k] is SkippedExisting ==> skipped_names(files, fates).contains(files[k].name@),
    decreases fates.len(),
{
    let front = fates.drop_last();
    let before = skipped_names(files, front);
    let all = skipped_names(files, fates);
    if k < fates.len() - 1 {
        skipped_of(files, front, k);
        if fates[k] is SkippedExisting {
            let i = choose|i: int| 0 <= i < before.len() && before[i] == files[k].name@;
            assert(all[i] == files[k].name@);
        }
    } else if fates[k] is SkippedExisting {
        assert(all.last() == files[k].name@);
    }
}

proof fn skipped_count(files: Seq<CollectionFile>, fates: Seq<FileFate>)
    requires
        fates.len() <= files.len(),
    ensures
        skipped_names(files, fates).len() == fates.filter(
            |fate: FileFate| fate is SkippedExisting,
        ).len(),
    decreases fates.len(),
{
    reveal(Seq::filter);
    if fates.len() > 0 {
        skipped_count(files, fates.drop_last());
    }
}

/// The result of a receive counts every file once: the exported ones with the sizes that were
/// reported, all others among the skipped with the sizes that the collection gives, and those that
/// stood there already by name.
pub proof fn the_result_counts_every_file_once(receive: Receive, result: TransferResult, k: int)
    requires
        call_ensures(Receive::result, (receive,), result),
        0 <= k < receive@.files.len(),
    ensures
        receive@.fates.len() == receive@.files.len(),
        result.bytes == sum(receive@.fates.map_values(|fate: FileFate| bytes_exported(fate))),
        result.files == receive@.fates.filter(|fate: FileFate| fate is Exported).len(),
        result.files + result.skipped_files == receive@.files.len(),
        result.skipped_bytes == sum(
            Seq::new(
                receive@.files.len(),
                |k: int| bytes_passed(receive@.files, receive@.fates, k),
            ),
        ),
        result.skipped@.len() == receive@.fates.filter(
            |fate: FileFate| fate is SkippedExisting,
        ).len(),
        receive@.fates[k] is SkippedExisting ==> exists|i: int|
            0 <= i < result.skipped@.len() && (#[trigger] result.skipped@[i])@
                == receive@.files[k].name@,
{
    counts_of(receive@.fates);
    passed_of(receive@.files, receive@.fates);
    skipped_of(receive@.files, receive@.fates, k);
    skipped_count(receive@.files, receive@.fates);
    let names = skipped_names(receive@.files, receive@.fates);
    assert(names.len() == result.skipped@.len());
    if receive@.fates[k] is SkippedExisting {
        let i = choose|i: int| 0 <= i < names.len() && names[i] == receive@.files[k].name@;
        assert(texts(result.skipped@)[i] == result.skipped@[i]@);
    }
}

/// A receive with a record saves it before anything else, and one without goes straight to its
/// target dir. Nothing has been received or exported yet.
pub proof fn a_receive_starts_with_its_record(
    options: ReceiveOptions,
    data_dir: &str,
    record: Option<TransferRecord>,
    receive: Receive,
)
    requires
        call_ensures(Receive::new, (options, data_dir, record), receive),
    ensures
        receive@.phase == if record is Some {
            ReceivePhase::SaveRecord
        } else {
            ReceivePhase::CreateTargetDir
        },
        record matches Some(r) ==> receive@.record == Some(r@),
        record is None ==> receive@.record is None,
        receive@.saved is None,
        receive@.records == joined(data_dir@, "transfers"@),
        receive@.target_dir == options.target_dir@,
        receive@.overwrite == options.overwrite,
        receive@.received == 0,
        receive@.local_bytes == 0,
        receive@.fates.len() == 0,
{
}

proof fn total_of(files: Seq<PreparedFile>)
    ensures
        total_size(files) == sum(files.map_values(|file: PreparedFile| file.size as int)),
    decreases files.len(),
{
    if files.len() > 0 {
        let front = files.drop_last();
        total_of(front);
        let numbers = front.map_values(|file: PreparedFile| file.size as int);
        assert(files.map_values(|file: PreparedFile| file.size as int) =~= numbers.push(
            files.last().size as int,
        ));
        sum_of_more(numbers, files.last().size as int);
    }
}

/// A prepared transfer holds every file of the list, in its order, under its name and path, and
/// its total is the sum of their sizes.
pub proof fn a_prepared_transfer_holds_the_whole_list(
    import: Import,
    ticket: String,
    hash: [u8; 32],
    prepared: PreparedTransfer,
    k: int,
)
    requires
        call_ensures(Import::finish, (import, ticket, hash), prepared),
        import.done().len() == import.list().len(),
        0 <= k < import.list().len(),
    ensures
        prepared.ticket == ticket,
        prepared.collection_hash == hash,
        prepared.files@.len() == import.list().len(),
        prepared.files@[k].name@ == import.list()[k].name@,
        prepared.files@[k].path@ == import.list()[k].path@,
        prepared.total_bytes == sum(
            prepared.files@.map_values(|file: PreparedFile| file.size as int),
        ),
{
    total_of(prepared.files@);
    assert(import.done()[k].name@ == import.list()[k].name@);
}

/// An import goes through its list from front to back: the next path is that of the first file that
/// is not imported yet, and the collection lists what is, each name with its hash.
pub proof fn files_are_imported_in_order(
    import: &Import,
    next: Option<&str>,
    collection: Vec<(String, [u8; 32])>,
    fits: bool,
    k: int,
)
    requires
        call_ensures(Import::next_path, (import,), next),
        call_ensures(Import::collection, (import,), collection),
        call_ensures(Import::fits, (import,), fits),
    ensures
        next is None <==> import.done().len() == import.list().len(),
        next matches Some(path) ==> path@ == import.list()[import.done().len() as int].path@,
        collection@.len() == import.done().len(),
        0 <= k < collection@.len() ==> collection@[k].0@ == import.list()[k].name@
            && collection@[k].1 == import.done()[k].hash,
        fits <==> sum(import.done().map_values(|file: PreparedFile| file.size as int))
            + import.reported() <= u64::MAX,
{
    total_of(import.done());
    if 0 <= k < collection@.len() {
        assert(import.done()[k].name@ == import.list()[k].name@);
    }
}

/// A file is imported with the size that was reported for it last, and nothing of an earlier file
/// is left over for the next.
pub proof fn a_file_is_imported_with_its_size(
    sizing: &mut Import,
    size: u64,
    found: Result<Option<ProgressEvent>, crate::transfer::send::SendError>,
    finishing: &mut Import,
    hash: [u8; 32],
    done: Result<Option<ProgressEvent>, crate::transfer::send::SendError>,
)
    requires
        call_ensures(Import::report, (sizing, ImportItem::Size(size)), found),
        call_ensures(Import::report, (finishing, ImportItem::Done(hash)), done),
        *final(sizing) == *old(finishing),
    ensures
        ({
            let at = old(sizing).done().len() as int;
            let file = old(sizing).list()[at];
            let after = final(finishing).done();
            &&& found matches Ok(Some(ProgressEvent::FileFound { name, size: shown }))
            &&& name@ == file.name@ && shown == size
            &&& done matches Ok(Some(ProgressEvent::FileImported { name }))
            &&& name@ == file.name@
            &&& after.len() == at + 1
            &&& after.take(at) == old(sizing).done()
            &&& after[at].name@ == file.name@
            &&& after[at].path@ == file.path@
            &&& after[at].size == size
            &&& after[at].hash == hash
            &&& final(finishing).reported() == 0
            &&& final(finishing).list() == old(sizing).list()
        }),
{
    let at = sizing.done().len() as int;
    assert(final(finishing).done().take(at) =~= final(finishing).done().drop_last());
}

/// An import that fails names the file, and changes nothing.
pub proof fn a_failed_import_names_the_file(
    import: &mut Import,
    item: ImportItem,
    outcome: Result<Option<ProgressEvent>, crate::transfer::send::SendError>,
)
    requires
        call_ensures(Import::report, (import, item), outcome),
    ensures
        ({
            let file = old(import).list()[old(import).done().len() as int];
            &&& item matches ImportItem::Error(why) ==> (outcome matches Err(
                crate::transfer::send::SendError::Import { name, source },
            ) && name@ == file.name@ && source@ == why@)
            &&& item is Ended ==> (outcome matches Err(
                crate::transfer::send::SendError::ImportStreamEnded { name },
            ) && name@ == file.name@)
            &&& item is Progress ==> (outcome matches Ok(None))
            &&& item is Error || item is Ended || item is Progress ==> *final(import) == *old(
                import,
            )
        }),
{
}

/// What is served counts once: two reports on a request, one ahead of the other, add up to the
/// offset of the further one, and a report that is not ahead adds nothing.
pub proof fn served_bytes_count_once(
    first: &mut RequestProgress,
    second: &mut RequestProgress,
    one: u64,
    two: u64,
    a: u64,
    b: u64,
)
    requires
        call_ensures(RequestProgress::update, (first, RequestUpdate::Progress(one)), a),
        call_ensures(RequestProgress::update, (second, RequestUpdate::Progress(two)), b),
        final(first).offset() == old(second).offset(),
    ensures
        old(first).offset() <= one <= two ==> a + b == two - old(first).offset(),
        two <= one ==> b == 0,
        final(second).offset() == two,
{
}

/// The completion of a request adds what no report had covered, and a start or an end without it
/// adds nothing.
pub proof fn a_completion_adds_the_rest(
    progress: &mut RequestProgress,
    update: RequestUpdate,
    delta: u64,
)
    requires
        call_ensures(RequestProgress::update, (progress, update), delta),
    ensures
        update matches RequestUpdate::Completed(sent) ==> if sent >= old(progress).offset() {
            old(progress).offset() + delta == sent
        } else {
            delta == 0
        },
        update is Started || update is Aborted ==> delta == 0,
        !(update is Progress) ==> final(progress).offset() == old(progress).offset(),
{
}

/// Only a sender that answers is downloaded from; of one that refuses or does not answer in time
/// the user is told.
pub proof fn only_a_sender_that_answers_is_downloaded_from(
    receive: &mut Receive,
    outcome: Dial,
    step: Result<(), Failure>,
)
    requires
        call_ensures(Receive::dialed, (receive, outcome), step),
    ensures
        final(receive)@.phase == ReceivePhase::FetchSizes <==> outcome is Connected,
        outcome is Connected <==> step is Ok,
        outcome matches Dial::Refused(reason) ==> (step matches Err(failure) && failure.announce && (
        failure.error matches ReceiveError::Connect { source } && source@ == reason@)),
        outcome is TimedOut ==> (step matches Err(failure) && failure.announce && failure.error
            == ReceiveError::ConnectTimeout),
        final(receive)@.record == old(receive)@.record,
{
}

/// A record stands on disk before the target dir is touched: saving it comes first, and a record
/// that cannot be saved ends the receive. The target dir is then created, and made absolute.
pub proof fn the_record_is_saved_first(
    saving: &mut Receive,
    saved: Result<(), String>,
    first: Result<(), Failure>,
    creating: &mut Receive,
    created: Result<(), String>,
    second: Result<(), Failure>,
    resolving: &mut Receive,
    resolved: Result<String, String>,
    third: Result<(), Failure>,
)
    requires
        call_ensures(Receive::record_saved, (saving, saved), first),
        call_ensures(Receive::target_dir_created, (creating, created), second),
        call_ensures(Receive::target_dir_resolved, (resolving, resolved), third),
    ensures
        saved is Ok <==> first is Ok,
        saved is Ok ==> final(saving)@.saved == old(saving)@.record && final(saving)@.phase
            == ReceivePhase::CreateTargetDir,
        saved is Err ==> final(saving)@.phase == ReceivePhase::Failed,
        created is Ok <==> second is Ok,
        created is Ok ==> final(creating)@.phase == ReceivePhase::ResolveTargetDir,
        resolved is Ok <==> third is Ok,
        resolved matches Ok(root) ==> final(resolving)@.root == root@ && final(resolving)@.phase
            == ReceivePhase::ReadLocalState,
{
}

/// A record that notes another export is saved before the next file, and one that is done before
/// it is deleted; deleting it is the last step.
pub proof fn the_record_is_deleted_last(
    noting: &mut Receive,
    noted: Result<(), String>,
    now: u128,
    on: Result<Option<ReceiveProgress>, Failure>,
    finishing: &mut Receive,
    done: Result<(), String>,
    last: Result<Option<ReceiveProgress>, Failure>,
    deleting: &mut Receive,
    deleted: bool,
    k: int,
)
    requires
        call_ensures(Receive::export_saved, (noting, noted, now), on),
        old(noting)@.fates.len() <= old(noting)@.files.len(),
        first_left(old(noting)@.files, old(noting)@.record, old(noting)@.fates.len() as int, k),
        call_ensures(Receive::done_saved, (finishing, done), last),
        call_ensures(Receive::record_deleted, (deleting, deleted), ()),
    ensures
        noted is Err ==> on is Err && final(noting)@.phase == ReceivePhase::Failed,
        noted is Ok ==> went_on_to(
            old(noting)@,
            old(noting)@.fates,
            k,
            now,
            final(noting)@,
            on,
        ),
        done is Ok ==> final(finishing)@.phase == ReceivePhase::DeleteRecord && final(finishing)@.saved
            == old(finishing)@.record && (last matches Ok(
            Some(ReceiveProgress::Done { bytes, files }),
        ) && bytes == sum(
            old(finishing)@.fates.map_values(|fate: FileFate| bytes_exported(fate)),
        ) && files == old(finishing)@.fates.filter(|fate: FileFate| fate is Exported).len()),
        done is Err ==> last is Err && final(finishing)@.phase == ReceivePhase::Failed,
        final(deleting)@.phase == ReceivePhase::Finished,
        deleted ==> final(deleting)@.saved is None,
        final(deleting)@.fates == old(deleting)@.fates,
{
    if noted is Ok {
        let start = ReceiveView { saved: noting@.record, ..noting@ };
        going_on(noting@, start, k, now, on);
    }
    counts_of(finishing@.fates);
}

/// Whether a step has failed over a record that cannot be saved: the receive is at its end, and the
/// failure names the record's place and the reason.
pub open spec fn save_failed(
    before: ReceiveView,
    after: ReceiveView,
    why: Seq<char>,
    failure: Failure,
) -> bool {
    &&& after.phase == ReceivePhase::Failed
    &&& after.record == before.record && after.saved == before.saved && after.fates == before.fates
    &&& !failure.announce
    &&& failure.error matches ReceiveError::RecordSave { path, source }
    &&& source@ == why
    &&& before.record matches Some(record) ==> path@ == joined(
        before.records,
        hex_text(record.collection_hash) + ".json"@,
    )
}

/// A record that cannot be saved ends the receive, at whatever step it is.
pub proof fn a_record_that_cannot_be_saved_ends_the_receive(
    starting: &mut Receive,
    loading: &mut Receive,
    exporting: &mut Receive,
    finishing: &mut Receive,
    why: String,
    now: u128,
    a: Result<(), Failure>,
    b: Result<Option<ReceiveProgress>, Failure>,
    c: Result<Option<ReceiveProgress>, Failure>,
    d: Result<Option<ReceiveProgress>, Failure>,
)
    requires
        call_ensures(Receive::record_saved, (starting, Err::<(), _>(why)), a),
        call_ensures(Receive::progress_saved, (loading, Err::<(), _>(why)), b),
        call_ensures(Receive::export_saved, (exporting, Err::<(), _>(why), now), c),
        call_ensures(Receive::done_saved, (finishing, Err::<(), _>(why)), d),
    ensures
        a matches Err(failure) && save_failed(old(starting)@, final(starting)@, why@, failure),
        b matches Err(failure) && save_failed(old(loading)@, final(loading)@, why@, failure),
        c matches Err(failure) && save_failed(old(exporting)@, final(exporting)@, why@, failure),
        d matches Err(failure) && save_failed(old(finishing)@, final(finishing)@, why@, failure),
{
}

/// A target dir that cannot be made or found, a store that cannot be read and a collection that
/// cannot be loaded end the receive without a word on the way; sizes that cannot be fetched are
/// announced.
pub proof fn a_failed_step_ends_the_receive(
    creating: &mut Receive,
    resolving: &mut Receive,
    reading: &mut Receive,
    fetching: &mut Receive,
    loading: &mut Receive,
    why: String,
    now: u128,
    a: Result<(), Failure>,
    b: Result<(), Failure>,
    c: Result<Option<ReceiveProgress>, Failure>,
    d: Result<(), Failure>,
    e: Result<Option<ReceiveProgress>, Failure>,
)
    requires
        call_ensures(Receive::target_dir_created, (creating, Err::<(), _>(why)), a),
        call_ensures(Receive::target_dir_resolved, (resolving, Err::<String, _>(why)), b),
        call_ensures(Receive::local_state_read, (reading, Err::<LocalState, _>(why)), c),
        call_ensures(Receive::sizes_fetched, (fetching, Err::<u64, _>(why)), d),
        call_ensures(
            Receive::collection_loaded,
            (loading, Err::<Vec<CollectionFile>, _>(why), now),
            e,
        ),
    ensures
        final(creating)@.phase == ReceivePhase::Failed,
        a matches Err(failure) && !failure.announce && (failure.error
            matches ReceiveError::TargetDir { path, source } && path@ == old(creating)@.target_dir
            && source@ == why@),
        final(resolving)@.phase == ReceivePhase::Failed,
        b matches Err(failure) && !failure.announce && (failure.error
            matches ReceiveError::TargetDirResolve { path, source } && path@
            == old(resolving)@.target_dir && source@ == why@),
        final(reading)@.phase == ReceivePhase::Failed,
        c matches Err(failure) && !failure.announce && (failure.error
            matches ReceiveError::LocalState { source } && source@ == why@),
        final(fetching)@.phase == ReceivePhase::Failed,
        d matches Err(failure) && failure.announce && (failure.error
            matches ReceiveError::Sizes { source } && source@ == why@),
        final(loading)@.phase == ReceivePhase::Failed,
        e matches Err(failure) && !failure.announce && (failure.error
            matches ReceiveError::LoadCollection { source } && source@ == why@),
{
}

proof fn sizes_of(files: Seq<CollectionFile>, n: int)
    requires
        0 <= n <= files.len(),
    ensures
        collection_size(files, n) == sum(
            files.take(n).map_values(|file: CollectionFile| file.size as int),
        ),
    decreases n,
{
    if n > 0 {
        sizes_of(files, n - 1);
        let front = files.take(n - 1).map_values(|file: CollectionFile| file.size as int);
        assert(files.take(n).map_values(|file: CollectionFile| file.size as int) =~= front.push(
            files[n - 1].size as int,
        ));
        sum_of_more(front, files[n - 1].size as int);
    } else {
        assert(files.take(0).map_values(|file: CollectionFile| file.size as int) =~= Seq::empty());
    }
}

/// A collection fits exactly if the sizes of its files add up to something that does.
pub proof fn a_collection_fits_if_its_sum_does(files: &Vec<CollectionFile>, fits: bool)
    requires
        call_ensures(collection_fits, (files,), fits),
    ensures
        fits <==> sum(files@.map_values(|file: CollectionFile| file.size as int)) <= u64::MAX,
{
    sizes_of(files@, files@.len() as int);
    assert(files@.take(files@.len() as int) =~= files@);
}

} // verus!
