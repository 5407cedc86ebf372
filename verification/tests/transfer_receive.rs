//! Receiving: names, the course of a receive, and its records.
use worddrop::transfer::engine::{
    accepted_protocols, store_dir, Error, RequestProgress, RequestUpdate, Standing,
};
use worddrop::transfer::paths::{file_name, join_path};
use worddrop::transfer::receive::{
    collection_fits, export_target, payload_total, CollectionFile, Dial, DownloadItem, ExportItem,
    LocalState, Receive, ReceiveError, ReceiveOptions, ReceivePhase, ReceiveProgress,
    TransferResult,
};
use worddrop::transfer::record::{
    after_creation, from_stored, record_to_use, resumable, to_stored, Creation, CreationStep,
    RecordStore, StoredRecord, TransferRecord, TransferStatus,
};

const ROOT: &str = "/tmp/out";

fn options(overwrite: bool) -> ReceiveOptions {
    ReceiveOptions { target_dir: ROOT.to_string(), overwrite }
}

fn tree() -> Vec<CollectionFile> {
    [("input/a.txt", 2), ("input/m.txt", 3), ("input/nested/b.txt", 4), ("input/z.txt", 6)]
        .iter()
        .enumerate()
        .map(|(at, (name, size))| CollectionFile {
            name: name.to_string(),
            hash: [at as u8; 32],
            size: *size,
        })
        .collect()
}

/// What a receive meets on its way.
struct World {
    complete: bool,
    local_bytes: u64,
    steps: Vec<u64>,
    files: Vec<CollectionFile>,
    occupied: Vec<String>,
    directories: Vec<String>,
    removed: Vec<String>,
    deleted: bool,
    saved: Vec<TransferRecord>,
    exported: Vec<String>,
}

impl World {
    fn new(files: Vec<CollectionFile>, complete: bool) -> World {
        World {
            complete,
            local_bytes: 0,
            steps: vec![5, 10, 15],
            files,
            occupied: Vec::new(),
            directories: Vec::new(),
            removed: Vec::new(),
            deleted: false,
            saved: Vec::new(),
            exported: Vec::new(),
        }
    }

    /// Carries the receive to its end; returns its result and the progress that went out.
    fn drive(
        &mut self,
        mut receive: Receive,
    ) -> (Result<TransferResult, ReceiveError>, Vec<ReceiveProgress>) {
        let mut events = Vec::new();
        let mut steps = self.steps.clone().into_iter();
        let mut export = 0;
        loop {
            let step = match receive.phase() {
                ReceivePhase::SaveRecord => {
                    self.saved.push(receive.record().unwrap().clone());
                    receive.record_saved(Ok(())).map(|()| None)
                }
                ReceivePhase::CreateTargetDir => receive.target_dir_created(Ok(())).map(|()| None),
                ReceivePhase::ResolveTargetDir => {
                    receive.target_dir_resolved(Ok(ROOT.to_string())).map(|()| None)
                }
                ReceivePhase::ReadLocalState => receive.local_state_read(Ok(LocalState {
                    complete: self.complete,
                    bytes: self.local_bytes,
                })),
                ReceivePhase::Connect => receive.dialed(Dial::Connected).map(|()| None),
                ReceivePhase::FetchSizes => {
                    let mut sizes = vec![77];
                    sizes.extend(self.files.iter().map(|file| file.size));
                    receive.sizes_fetched(Ok(payload_total(&sizes).unwrap())).map(|()| None)
                }
                ReceivePhase::Download => receive.downloaded(
                    match steps.next() {
                        Some(offset) => DownloadItem::Progress(offset),
                        None => DownloadItem::Done,
                    },
                    1,
                ),
                ReceivePhase::SaveProgress => {
                    self.saved.push(receive.record().unwrap().clone());
                    receive.progress_saved(Ok(()))
                }
                ReceivePhase::LoadCollection => {
                    assert!(collection_fits(&self.files));
                    receive.collection_loaded(Ok(self.files.clone()), 2)
                }
                ReceivePhase::CheckTarget => {
                    export = 0;
                    let standing = |list: &[String]| list.iter().any(|path| path == receive.target());
                    let standing = if standing(&self.directories) {
                        Standing::Directory
                    } else if standing(&self.occupied) {
                        Standing::NotDirectory
                    } else {
                        Standing::Nothing
                    };
                    receive.target_checked(standing, 3)
                }
                ReceivePhase::RemoveExisting => {
                    self.removed.push(receive.target().to_string());
                    receive.existing_removed(Ok(()))
                }
                ReceivePhase::Export => {
                    let size = self.files[receive.current_hash()[0] as usize].size;
                    export += 1;
                    match export {
                        1 => receive.exported(ExportItem::Size(size), 4),
                        2 => receive.exported(ExportItem::CopyProgress, 4),
                        3 => receive.exported(ExportItem::Done, 4),
                        _ => {
                            self.exported.push(receive.target().to_string());
                            assert!(receive.fits());
                            receive.exported(ExportItem::Ended, 4)
                        }
                    }
                }
                ReceivePhase::SaveExported => {
                    self.saved.push(receive.record().unwrap().clone());
                    receive.export_saved(Ok(()), 5)
                }
                ReceivePhase::SaveDone => {
                    self.saved.push(receive.record().unwrap().clone());
                    receive.done_saved(Ok(()))
                }
                ReceivePhase::DeleteRecord => {
                    self.deleted = true;
                    receive.record_deleted(true);
                    Ok(None)
                }
                ReceivePhase::Finished => return (Ok(receive.result()), events),
                ReceivePhase::Failed => unreachable!("a failure ends the loop"),
            };
            match step {
                Ok(event) => events.extend(event),
                Err(failure) => {
                    if failure.announce {
                        events.push(ReceiveProgress::Error);
                    }
                    return (Err(failure.error), events);
                }
            }
        }
    }
}

#[test]
fn receive_export_target_validates_collection_names() {
    let root = "/tmp/root";
    assert_eq!(export_target(root, "a/b.txt").expect("nested ok"), "/tmp/root/a/b.txt");
    assert_eq!(export_target(root, "solo.txt").expect("flat ok"), "/tmp/root/solo.txt");

    for bad in ["../evil", "a/../evil", "a//b", "/abs", "a/", "", "a\\b"] {
        let err = export_target(root, bad).expect_err("unsafe name must be rejected");
        assert!(matches!(err, ReceiveError::InvalidCollectionName { .. }), "{bad:?} -> {err:?}");
    }
}

#[test]
fn receive_e2e_pair_downloads_and_exports_byte_for_byte() {
    let mut world = World::new(tree(), false);
    let (result, _) = world.drive(Receive::new(options(false), "/tmp/data", None));
    let result = result.expect("receive succeeds");
    assert_eq!(result.bytes, 15, "all payload bytes exported");
    assert_eq!(result.files, 4, "every file exported");
    assert!(result.skipped.is_empty(), "nothing skipped on a fresh target");
    assert_eq!(
        world.exported,
        vec![
            "/tmp/out/input/a.txt",
            "/tmp/out/input/m.txt",
            "/tmp/out/input/nested/b.txt",
            "/tmp/out/input/z.txt"
        ]
    );
}

#[test]
fn receive_emits_monotonic_download_progress_then_done() {
    let mut world = World::new(tree(), false);
    world.local_bytes = 3;
    let (result, events) = world.drive(Receive::new(options(false), "/tmp/data", None));
    let result = result.expect("receive succeeds");
    assert_eq!(events.first(), Some(&ReceiveProgress::Connecting), "dial first");

    let mut last_received = 0u64;
    let mut downloads = 0usize;
    for event in &events {
        if let ReceiveProgress::Downloading { received, total } = event {
            downloads += 1;
            assert_eq!(*total, 15, "progress total is the payload size");
            assert!(*received >= last_received, "received bytes are monotonic");
            assert!(*received <= *total, "received never exceeds total");
            last_received = *received;
        }
    }
    assert!(downloads > 0);
    assert_eq!(last_received, 15, "progress reaches the total");

    let exporting: Vec<&str> = events
        .iter()
        .filter_map(|event| match event {
            ReceiveProgress::Exporting { file } => Some(file.as_str()),
            _ => None,
        })
        .collect();
    assert_eq!(
        exporting,
        vec!["input/a.txt", "input/m.txt", "input/nested/b.txt", "input/z.txt"]
    );
    assert_eq!(
        events.last(),
        Some(&ReceiveProgress::Done { bytes: result.bytes, files: result.files })
    );
    assert_eq!(result.files, 4);
}

#[test]
fn receive_from_dead_peer_emits_error_event() {
    let mut receive = Receive::new(options(false), "/tmp/data", None);
    receive.target_dir_created(Ok(())).unwrap();
    receive.target_dir_resolved(Ok(ROOT.to_string())).unwrap();
    let dial = receive.local_state_read(Ok(LocalState { complete: false, bytes: 0 })).unwrap();
    assert_eq!(dial, Some(ReceiveProgress::Connecting));
    let failure = receive.dialed(Dial::TimedOut).unwrap_err();
    assert!(failure.announce, "error event emitted");
    assert_eq!(failure.error, ReceiveError::ConnectTimeout);
    assert_eq!(receive.phase(), ReceivePhase::Failed);
}

#[test]
fn receive_conflict_policy_skips_without_overwrite_replaces_with_overwrite() {
    let mut world = World::new(tree(), true);
    world.occupied = vec![
        "/tmp/out/input/m.txt".to_string(),
        "/tmp/out/input/nested/b.txt".to_string(),
        "/tmp/out/input/z.txt".to_string(),
    ];
    let (second, events) = world.drive(Receive::new(options(false), "/tmp/data", None));
    let second = second.expect("second receive");
    assert_eq!(
        second.skipped,
        vec!["input/m.txt", "input/nested/b.txt", "input/z.txt"],
        "existing files recorded as skipped"
    );
    assert_eq!(second.files, 1, "only the deleted file is exported");
    assert_eq!(second.bytes, 2, "only the re-exported file's bytes counted");
    assert_eq!(second.skipped_files, 3);
    assert_eq!(second.skipped_bytes, 13);
    assert_eq!(world.exported, vec!["/tmp/out/input/a.txt"]);
    assert!(
        events.iter().all(|event| !matches!(event, ReceiveProgress::Connecting)
            && !matches!(event, ReceiveProgress::Downloading { .. })),
        "data already complete: re-receive does not dial or download"
    );

    let (third, _) = world.drive(Receive::new(options(true), "/tmp/data", None));
    let third = third.expect("third receive");
    assert!(third.skipped.is_empty(), "overwrite replaces instead of skipping");
    assert_eq!(third.files, 4);
    assert_eq!(third.bytes, 15);
}

#[test]
fn receive_empty_collection_exports_nothing() {
    let mut world = World::new(Vec::new(), false);
    world.steps = Vec::new();
    let (result, events) = world.drive(Receive::new(options(false), "/tmp/data", None));
    let result = result.expect("empty collection receive succeeds");
    assert_eq!(result.bytes, 0);
    assert_eq!(result.files, 0);
    assert!(result.skipped.is_empty());
    assert_eq!(events.last(), Some(&ReceiveProgress::Done { bytes: 0, files: 0 }));
}

#[test]
fn resume_skips_files_the_record_marks_as_exported() {
    let mut record = TransferRecord::new([7; 32], ROOT, 0);
    record.bytes_received = 15;
    record.exported_files.push("input/a.txt".to_string());
    let mut world = World::new(tree(), true);
    world.occupied = vec![
        "/tmp/out/input/m.txt".to_string(),
        "/tmp/out/input/nested/b.txt".to_string(),
        "/tmp/out/input/z.txt".to_string(),
    ];
    let (result, events) = world.drive(Receive::new(options(false), "/tmp/data", Some(record)));
    let result = result.expect("second receive");
    assert_eq!(result.files, 0, "nothing newly exported");
    assert_eq!(result.bytes, 0);
    assert_eq!(
        result.skipped,
        vec!["input/m.txt", "input/nested/b.txt", "input/z.txt"],
        "remaining files skipped by the conflict policy"
    );
    assert_eq!(result.skipped_files, 4, "the earlier export counts as delivered");
    assert_eq!(result.skipped_bytes, 15);
    assert!(world.exported.is_empty(), "a.txt is not exported again");
    assert!(
        events.iter().all(|event| !matches!(event, ReceiveProgress::Connecting)
            && !matches!(event, ReceiveProgress::Downloading { .. })),
        "data already complete: the resumed run does not dial or download"
    );
    assert_eq!(world.saved.last().unwrap().status, TransferStatus::Done);
}

#[test]
fn a_record_follows_the_receive() {
    let record = TransferRecord::new([7; 32], ROOT, 0);
    let mut world = World::new(tree(), false);
    let (result, _) = world.drive(Receive::new(options(false), "/tmp/data", Some(record)));
    assert_eq!(result.expect("succeeds").files, 4);
    let last = world.saved.last().unwrap();
    assert_eq!(last.status, TransferStatus::Done);
    assert_eq!(last.bytes_received, 15);
    assert_eq!(
        last.exported_files,
        vec!["input/a.txt", "input/m.txt", "input/nested/b.txt", "input/z.txt"]
    );
    assert!(world.deleted, "a complete receive leaves no record");
    let received: Vec<u64> = world.saved.iter().map(|record| record.bytes_received).collect();
    assert!(received.windows(2).all(|pair| pair[0] <= pair[1]), "{received:?}");
}

#[test]
fn the_record_is_saved_before_anything_else() {
    let record = TransferRecord::new([7; 32], ROOT, 0);
    let mut receive = Receive::new(options(false), "/tmp/data", Some(record.clone()));
    assert_eq!(receive.phase(), ReceivePhase::SaveRecord);
    assert_eq!(receive.record(), Some(&record));
    receive.record_saved(Ok(())).unwrap();
    assert_eq!(receive.phase(), ReceivePhase::CreateTargetDir);

    let mut receive = Receive::new(options(false), "/tmp/data", Some(record));
    let failure = receive.record_saved(Err("denied".to_string())).unwrap_err();
    let path = format!("/tmp/data/transfers/{}.json", "07".repeat(32));
    assert_eq!(failure.error, ReceiveError::RecordSave { path, source: "denied".to_string() });
    assert!(!failure.announce);
    assert_eq!(receive.phase(), ReceivePhase::Failed);

    let plain = Receive::new(options(false), "/tmp/data", None);
    assert_eq!(plain.phase(), ReceivePhase::CreateTargetDir);
}

#[test]
fn a_directory_at_a_target_is_an_error_even_with_overwrite() {
    for overwrite in [false, true] {
        let mut world = World::new(tree(), true);
        world.directories = vec!["/tmp/out/input/m.txt".to_string()];
        let (result, _) = world.drive(Receive::new(options(overwrite), "/tmp/data", None));
        match result.unwrap_err() {
            ReceiveError::RemoveExisting { path, source } => {
                assert_eq!(path, "/tmp/out/input/m.txt");
                assert_eq!(source, "is a directory");
            }
            other => panic!("{other:?}"),
        }
        assert_eq!(world.exported, vec!["/tmp/out/input/a.txt"]);
        assert!(world.removed.is_empty(), "the directory is not removed");
    }
}

#[test]
fn record_save_load_roundtrips_all_fields() {
    let mut record = TransferRecord::new([0x5a; 32], "/tmp/out", 1_700_000_000_123_456_789);
    record.bytes_received = 42;
    record.exported_files.push("a.txt".to_string());
    record.status = TransferStatus::Done;
    let stored = to_stored(&record).expect("the time can be stored");
    assert_eq!(stored.collection_hash, "5a".repeat(32));
    assert_eq!((stored.updated_secs, stored.updated_nanos), (1_700_000_000, 123_456_789));
    let loaded = resumable(from_stored(stored), [0x5a; 32], "/tmp/out").expect("load record");
    assert_eq!(loaded, record, "all fields survive the roundtrip");
    record.updated_at = u128::MAX;
    assert_eq!(to_stored(&record), None);
}

#[test]
fn record_load_treats_corrupt_file_as_no_resume() {
    let stored = |hash: &str| StoredRecord {
        collection_hash: hash.to_string(),
        target_dir: "/tmp/out".to_string(),
        bytes_received: 0,
        status: TransferStatus::InProgress,
        exported_files: Vec::new(),
        updated_secs: 0,
        updated_nanos: 0,
    };
    for corrupt in ["", "zz", "00ff", &"0".repeat(66)] {
        assert_eq!(from_stored(stored(corrupt)), None, "{corrupt:?}");
    }
    assert!(from_stored(stored(&"00".repeat(32))).is_some());
    assert_eq!(resumable(None, [0; 32], "/tmp/out"), None);
}

#[test]
fn an_unsafe_name_in_a_collection_ends_the_receive() {
    let files =
        vec![CollectionFile { name: "../evil".to_string(), hash: [0; 32], size: 1 }];
    let mut world = World::new(files, true);
    let (result, events) = world.drive(Receive::new(options(false), "/tmp/data", None));
    assert_eq!(
        result.unwrap_err(),
        ReceiveError::InvalidCollectionName { name: "../evil".to_string() }
    );
    assert!(!events.contains(&ReceiveProgress::Error));
    assert!(world.exported.is_empty());
}

#[test]
fn each_failure_of_a_receive_has_its_error() {
    let fresh = || Receive::new(options(false), "/tmp/data", None);
    let reason = || "io".to_string();

    let mut receive = fresh();
    let failure = receive.target_dir_created(Err(reason())).unwrap_err();
    assert_eq!(
        failure.error,
        ReceiveError::TargetDir { path: ROOT.to_string(), source: reason() }
    );

    let mut receive = fresh();
    receive.target_dir_created(Ok(())).unwrap();
    let failure = receive.target_dir_resolved(Err(reason())).unwrap_err();
    assert!(matches!(failure.error, ReceiveError::TargetDirResolve { .. }));

    let mut receive = fresh();
    receive.target_dir_created(Ok(())).unwrap();
    receive.target_dir_resolved(Ok(ROOT.to_string())).unwrap();
    let failure = receive.local_state_read(Err(reason())).unwrap_err();
    assert_eq!(failure.error, ReceiveError::LocalState { source: reason() });

    let dialing = || {
        let mut receive = fresh();
        receive.target_dir_created(Ok(())).unwrap();
        receive.target_dir_resolved(Ok(ROOT.to_string())).unwrap();
        receive.local_state_read(Ok(LocalState { complete: false, bytes: 0 })).unwrap();
        receive
    };
    let failure = dialing().dialed(Dial::Refused(reason())).unwrap_err();
    assert_eq!(failure.error, ReceiveError::Connect { source: reason() });

    let mut receive = dialing();
    receive.dialed(Dial::Connected).unwrap();
    let failure = receive.sizes_fetched(Err(reason())).unwrap_err();
    assert_eq!(failure.error, ReceiveError::Sizes { source: reason() });

    let mut receive = dialing();
    receive.dialed(Dial::Connected).unwrap();
    receive.sizes_fetched(Ok(10)).unwrap();
    let failure = receive.downloaded(DownloadItem::Error(reason()), 0).unwrap_err();
    assert_eq!(failure.error, ReceiveError::Download { source: reason() });

    let loading = || {
        let mut receive = fresh();
        receive.target_dir_created(Ok(())).unwrap();
        receive.target_dir_resolved(Ok(ROOT.to_string())).unwrap();
        receive.local_state_read(Ok(LocalState { complete: true, bytes: 0 })).unwrap();
        receive
    };
    let failure = loading().collection_loaded(Err(reason()), 0).unwrap_err();
    assert_eq!(failure.error, ReceiveError::LoadCollection { source: reason() });

    let exporting = || {
        let mut receive = loading();
        receive.collection_loaded(Ok(tree()), 0).unwrap();
        receive.target_checked(Standing::Nothing, 0).unwrap();
        receive
    };
    let failure = exporting().exported(ExportItem::Error(reason()), 0).unwrap_err();
    assert_eq!(
        failure.error,
        ReceiveError::Export { file: "input/a.txt".to_string(), source: reason() }
    );
    let failure = exporting().exported(ExportItem::Ended, 0).unwrap_err();
    assert_eq!(
        failure.error,
        ReceiveError::ExportStreamEnded { file: "input/a.txt".to_string() }
    );

    let mut receive = Receive::new(options(true), "/tmp/data", None);
    receive.target_dir_created(Ok(())).unwrap();
    receive.target_dir_resolved(Ok(ROOT.to_string())).unwrap();
    receive.local_state_read(Ok(LocalState { complete: true, bytes: 0 })).unwrap();
    receive.collection_loaded(Ok(tree()), 0).unwrap();
    receive.target_checked(Standing::NotDirectory, 0).unwrap();
    let failure = receive.existing_removed(Err(reason())).unwrap_err();
    assert_eq!(
        failure.error,
        ReceiveError::RemoveExisting {
            path: "/tmp/out/input/a.txt".to_string(),
            source: reason()
        }
    );
    assert!(failure.error.to_string().contains("/tmp/out/input/a.txt"));
}

#[test]
fn a_record_that_cannot_be_saved_ends_the_receive() {
    let record = TransferRecord::new([0xab; 32], ROOT, 0);
    let mut receive = Receive::new(options(false), "/tmp/data", Some(record));
    receive.record_saved(Ok(())).unwrap();
    receive.target_dir_created(Ok(())).unwrap();
    receive.target_dir_resolved(Ok(ROOT.to_string())).unwrap();
    receive.local_state_read(Ok(LocalState { complete: false, bytes: 0 })).unwrap();
    receive.dialed(Dial::Connected).unwrap();
    receive.sizes_fetched(Ok(10)).unwrap();
    assert!(receive.offset_fits(4) && receive.offset_fits(u64::MAX));
    receive.downloaded(DownloadItem::Progress(4), 9).unwrap();
    assert_eq!(receive.phase(), ReceivePhase::SaveProgress);
    let failure = receive.progress_saved(Err("full".to_string())).unwrap_err();
    let path = format!("/tmp/data/transfers/{}.json", "ab".repeat(32));
    assert_eq!(failure.error, ReceiveError::RecordSave { path, source: "full".to_string() });
}

#[test]
fn an_offset_that_overflows_is_noticed() {
    let mut receive = Receive::new(options(false), "/tmp/data", None);
    receive.target_dir_created(Ok(())).unwrap();
    receive.target_dir_resolved(Ok(ROOT.to_string())).unwrap();
    receive.local_state_read(Ok(LocalState { complete: false, bytes: 3 })).unwrap();
    assert!(receive.offset_fits(u64::MAX - 3));
    assert!(!receive.offset_fits(u64::MAX - 2));
}

#[test]
fn the_metadata_blob_does_not_count_as_payload() {
    assert_eq!(payload_total(&vec![]), Some(0));
    assert_eq!(payload_total(&vec![100]), Some(0));
    assert_eq!(payload_total(&vec![100, 2, 3]), Some(5));
    assert_eq!(payload_total(&vec![1, u64::MAX, 1]), None);
}

#[test]
fn record_load_rejects_mismatched_target_dir() {
    let record = TransferRecord::new([1; 32], "/tmp/out-a", 0);
    assert!(resumable(Some(record.clone()), [1; 32], "/tmp/out-b").is_none());
    assert!(resumable(Some(record.clone()), [2; 32], "/tmp/out-a").is_none());
    assert!(resumable(Some(record), [1; 32], "/tmp/out-a").is_some());
}

#[test]
fn resume_corrupt_record_is_treated_as_fresh_receive() {
    let fresh = record_to_use(None, [1; 32], "/tmp/out", 44);
    assert_eq!(fresh, TransferRecord::new([1; 32], "/tmp/out", 44));
    let mut known = TransferRecord::new([1; 32], "/tmp/out", 3);
    known.bytes_received = 42;
    assert_eq!(record_to_use(Some(known.clone()), [1; 32], "/tmp/out", 44), known);
    assert_eq!(record_to_use(Some(known), [2; 32], "/tmp/out", 44).bytes_received, 0);
}

#[test]
fn records_lie_below_the_data_dir() {
    let store = RecordStore::new("/tmp/data");
    assert_eq!(store.dir(), "/tmp/data/transfers");
    let hex = "0f".repeat(32);
    assert_eq!(store.path(&[0x0f; 32]), format!("/tmp/data/transfers/{hex}.json"));
    assert_eq!(
        store.tmp_path(&[0x0f; 32], 12, 3),
        format!("/tmp/data/transfers/.{hex}.12-3.tmp")
    );
    assert_ne!(store.tmp_path(&[0x0f; 32], 12, 3), store.tmp_path(&[0x0f; 32], 1, 23));
}

#[test]
fn a_stale_temporary_file_is_removed_once() {
    assert!(matches!(after_creation(true, Creation::Created), CreationStep::Write));
    assert!(matches!(
        after_creation(true, Creation::Exists("x".to_string())),
        CreationStep::RemoveAndRetry
    ));
    assert!(matches!(
        after_creation(false, Creation::Exists("x".to_string())),
        CreationStep::Fail(_)
    ));
    assert!(matches!(
        after_creation(true, Creation::Failed("x".to_string())),
        CreationStep::Fail(_)
    ));
}

#[test]
fn init_with_file_data_dir_is_error() {
    let err = store_dir("/tmp/not-a-dir", Standing::NotDirectory, Standing::Nothing).unwrap_err();
    assert!(matches!(err, Error::DataDirNotDirectory { .. }), "got {err:?}");
    let err = store_dir("/tmp/d", Standing::Directory, Standing::NotDirectory).unwrap_err();
    assert_eq!(err, Error::DataDirNotDirectory { path: "/tmp/d/blobs".to_string() });
    assert_eq!(store_dir("/tmp/d", Standing::Nothing, Standing::Nothing).unwrap(), "/tmp/d/blobs");
}

#[test]
fn served_bytes_add_up_to_what_was_sent() {
    let mut progress = RequestProgress::new();
    let mut served = 0;
    for update in [
        RequestUpdate::Started,
        RequestUpdate::Progress(10),
        RequestUpdate::Progress(10),
        RequestUpdate::Progress(30),
        RequestUpdate::Completed(32),
    ] {
        served += progress.update(update);
    }
    assert_eq!(served, 32);
    assert_eq!(progress.update(RequestUpdate::Progress(4)), 0, "an earlier offset adds nothing");
    assert_eq!(RequestProgress::new().update(RequestUpdate::Aborted), 0);
}

#[test]
fn the_extra_protocol_joins_the_blobs() {
    let blobs = b"/iroh-bytes/4".to_vec();
    assert_eq!(accepted_protocols(&blobs, None), vec![blobs.clone()]);
    assert_eq!(
        accepted_protocols(&blobs, Some(b"x".to_vec())),
        vec![blobs.clone(), b"x".to_vec()]
    );
}

#[test]
fn paths_are_joined_and_named() {
    assert_eq!(join_path("/tmp", "a"), "/tmp/a");
    assert_eq!(join_path("/tmp/", "a"), "/tmp/a");
    assert_eq!(join_path("", "a"), "a");
    assert_eq!(file_name("/tmp/a"), Some("a".to_string()));
    assert_eq!(file_name("/tmp/a/"), Some("a".to_string()));
    assert_eq!(file_name("a/."), Some("a".to_string()));
    assert_eq!(file_name("a/.."), None);
    assert_eq!(file_name("/"), None);
    assert_eq!(file_name(""), None);
}
