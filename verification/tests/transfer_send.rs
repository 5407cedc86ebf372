//! Preparing a send: the walk over the inputs and the import.
use worddrop::transfer::send::{
    prepare_files, walk_files, DirEntry, FileNode, Import, ImportItem, PreparedTransfer,
    ProgressEvent, SendError, SendInput, SourceFile,
};

fn entry(name: &str, node: FileNode) -> DirEntry {
    DirEntry::Entry { name: name.to_string(), node }
}

/// Three files and a nested directory, listed in no particular order.
fn source_tree() -> FileNode {
    FileNode::Directory(vec![
        entry("nested", FileNode::Directory(vec![entry("b.txt", FileNode::File)])),
        entry("z.txt", FileNode::File),
        entry("a.txt", FileNode::File),
        entry("m.txt", FileNode::File),
    ])
}

fn names(files: &[SourceFile]) -> Vec<&str> {
    files.iter().map(|file| file.name.as_str()).collect()
}

fn input(path: &str, node: Option<FileNode>) -> SendInput {
    SendInput { path: path.to_string(), node }
}

/// Imports every file, with the sizes given by name, and gathers the progress.
fn import_all(
    sources: Vec<SourceFile>,
    size_of: &dyn Fn(&str) -> u64,
) -> (PreparedTransfer, Vec<ProgressEvent>) {
    let sizes: Vec<u64> = sources.iter().map(|source| size_of(&source.name)).collect();
    let mut import = Import::new(sources);
    let mut events = Vec::new();
    for (at, size) in sizes.iter().enumerate() {
        assert!(import.next_path().is_some());
        assert_eq!(import.collection().len(), at);
        for item in [
            ImportItem::Progress,
            ImportItem::Size(*size),
            ImportItem::Progress,
            ImportItem::Done([at as u8; 32]),
        ] {
            assert!(import.fits());
            events.extend(import.report(item).expect("import goes on"));
        }
    }
    assert!(import.next_path().is_none());
    (import.finish("ticket".to_string(), [9; 32]), events)
}

fn tree_sizes(name: &str) -> u64 {
    match name {
        "input/a.txt" => 2,
        "input/m.txt" => 3,
        "input/nested/b.txt" => 4,
        _ => 6,
    }
}

#[test]
fn send_walk_sorts_directory_entries_stably_with_root_prefix() {
    let files = walk_files("/tmp/x/input", Some(&source_tree())).expect("walk succeeds");
    assert_eq!(
        names(&files),
        vec!["input/a.txt", "input/m.txt", "input/nested/b.txt", "input/z.txt"],
        "files sorted by collection name with the input root as prefix"
    );
    for file in &files {
        assert!(file.path.starts_with("/tmp/x/input"), "{} under input", file.path);
    }
    assert_eq!(files[2].path, "/tmp/x/input/nested/b.txt");
}

#[test]
fn send_walk_single_file_returns_itself() {
    let files = walk_files("/tmp/x/hello.txt", Some(&FileNode::File)).expect("walk succeeds");
    assert_eq!(files.len(), 1);
    assert_eq!(files[0].name, "hello.txt");
    assert_eq!(files[0].path, "/tmp/x/hello.txt");
}

#[test]
fn send_walk_missing_path_errors() {
    let err = walk_files("/tmp/x/does-not-exist", None).expect_err("missing path must error");
    assert!(matches!(err, SendError::MissingSource { .. }), "got {err:?}");
}

#[test]
fn send_walk_path_without_file_name_errors() {
    for path in [".", "/", ".."] {
        let err = walk_files(path, Some(&source_tree())).expect_err("no root name");
        assert!(matches!(err, SendError::InvalidRootName { .. }), "{path}: got {err:?}");
    }
}

#[test]
fn send_walk_skips_nested_symlink() {
    let tree = FileNode::Directory(vec![
        entry("real.txt", FileNode::File),
        entry("link.txt", FileNode::Symlink),
    ]);
    let files = walk_files("/tmp/x/input", Some(&tree)).expect("walk succeeds");
    assert_eq!(names(&files), vec!["input/real.txt"], "symlink skipped, real file kept");
}

#[test]
fn send_walk_skips_top_level_symlink() {
    let files = walk_files("/tmp/x/link.txt", Some(&FileNode::Symlink)).expect("walk succeeds");
    assert!(files.is_empty(), "top-level symlink skipped: {files:?}");
}

#[test]
fn send_prepare_collects_files_with_correct_sizes() {
    let sources = prepare_files(&vec![input("/tmp/x/input", Some(source_tree()))])
        .expect("prepare succeeds");
    let (prepared, _) = import_all(sources, &tree_sizes);
    let names: Vec<&str> = prepared.files.iter().map(|f| f.name.as_str()).collect();
    assert_eq!(
        names,
        vec!["input/a.txt", "input/m.txt", "input/nested/b.txt", "input/z.txt"]
    );
    let sizes: Vec<u64> = prepared.files.iter().map(|f| f.size).collect();
    assert_eq!(sizes, vec![2, 3, 4, 6], "per-file sizes match the payloads");
    assert_eq!(prepared.total_bytes, 15);
    assert_eq!(prepared.files[3].hash, [3; 32]);
    assert_eq!(prepared.ticket, "ticket");
    assert_eq!(prepared.collection_hash, [9; 32]);
}

#[test]
fn send_prepare_hash_is_deterministic_for_same_input() {
    let listed = FileNode::Directory(vec![
        entry("m.txt", FileNode::File),
        entry("a.txt", FileNode::File),
        entry("z.txt", FileNode::File),
        entry("nested", FileNode::Directory(vec![entry("b.txt", FileNode::File)])),
    ]);
    let first = prepare_files(&vec![input("/tmp/x/input", Some(source_tree()))]).unwrap();
    let second = prepare_files(&vec![input("/tmp/x/input", Some(listed))]).unwrap();
    assert_eq!(first, second, "the order of the listing does not matter");
}

#[test]
fn send_prepare_empty_dir_yields_empty_collection() {
    let sources =
        prepare_files(&vec![input("/tmp/x/empty", Some(FileNode::Directory(Vec::new())))])
            .expect("empty dir is not an error");
    let (prepared, events) = import_all(sources, &tree_sizes);
    assert!(prepared.files.is_empty());
    assert_eq!(prepared.total_bytes, 0);
    assert!(events.is_empty());
}

#[test]
fn send_prepare_skips_symlink_with_warning() {
    let tree = FileNode::Directory(vec![
        entry("real.txt", FileNode::File),
        entry("link.txt", FileNode::Symlink),
    ]);
    let sources =
        prepare_files(&vec![input("/tmp/x/input", Some(tree))]).expect("prepare succeeds");
    let (prepared, _) = import_all(sources, &|_| 4);
    let names: Vec<&str> = prepared.files.iter().map(|f| f.name.as_str()).collect();
    assert_eq!(names, vec!["input/real.txt"], "symlink skipped, real file kept");
    assert_eq!(prepared.total_bytes, 4);
}

#[test]
fn send_prepare_missing_source_path_errors() {
    let err = prepare_files(&vec![input("/tmp/x/nope", None)])
        .expect_err("missing source must be rejected");
    match err {
        SendError::MissingSource { path } => assert_eq!(path, "/tmp/x/nope"),
        other => panic!("unexpected error: {other:?}"),
    }
}

#[test]
fn send_prepare_duplicate_names_across_inputs_error() {
    let tree = || Some(FileNode::Directory(vec![entry("same.txt", FileNode::File)]));
    let err = prepare_files(&vec![input("/tmp/x/input", tree()), input("/tmp/x/input", tree())])
        .expect_err("duplicate collection names must error");
    match err {
        SendError::DuplicateName { name } => assert_eq!(name, "input/same.txt"),
        other => panic!("unexpected error: {other:?}"),
    }
}

#[test]
fn send_prepare_emits_progress_events() {
    let sources = prepare_files(&vec![input("/tmp/x/input", Some(source_tree()))]).unwrap();
    let (_, events) = import_all(sources, &tree_sizes);
    let found: Vec<(&str, u64)> = events
        .iter()
        .filter_map(|e| match e {
            ProgressEvent::FileFound { name, size } => Some((name.as_str(), *size)),
            ProgressEvent::FileImported { .. } => None,
        })
        .collect();
    assert_eq!(
        found,
        vec![
            ("input/a.txt", 2),
            ("input/m.txt", 3),
            ("input/nested/b.txt", 4),
            ("input/z.txt", 6),
        ]
    );
    let imported: Vec<&str> = events
        .iter()
        .filter_map(|e| match e {
            ProgressEvent::FileImported { name } => Some(name.as_str()),
            ProgressEvent::FileFound { .. } => None,
        })
        .collect();
    assert_eq!(
        imported,
        vec!["input/a.txt", "input/m.txt", "input/nested/b.txt", "input/z.txt"]
    );
}

#[test]
fn the_collection_pairs_each_name_with_its_hash() {
    let sources = walk_files("/tmp/x/input", Some(&source_tree())).expect("walk succeeds");
    let mut import = Import::new(sources);
    assert_eq!(import.collection(), Vec::new());
    for at in 0..4u8 {
        import.report(ImportItem::Size(1)).expect("size");
        assert!(import.fits());
        import.report(ImportItem::Done([at; 32])).expect("done");
    }
    assert_eq!(
        import.collection(),
        vec![
            ("input/a.txt".to_string(), [0; 32]),
            ("input/m.txt".to_string(), [1; 32]),
            ("input/nested/b.txt".to_string(), [2; 32]),
            ("input/z.txt".to_string(), [3; 32]),
        ]
    );
}

#[test]
fn send_prepare_single_file_input() {
    let sources =
        prepare_files(&vec![input("/tmp/x/solo.txt", Some(FileNode::File))]).expect("one file");
    let (prepared, _) = import_all(sources, &|_| 4);
    assert_eq!(prepared.files.len(), 1);
    assert_eq!(prepared.files[0].name, "solo.txt");
    assert_eq!(prepared.files[0].path, "/tmp/x/solo.txt");
    assert_eq!(prepared.files[0].size, 4);
    assert_eq!(prepared.total_bytes, 4);
}

#[test]
fn inputs_are_merged_in_the_order_of_their_names() {
    let sources = prepare_files(&vec![
        input("/tmp/x/zoo", Some(FileNode::File)),
        input("/tmp/x/input", Some(source_tree())),
        input("/tmp/y/ant", Some(FileNode::File)),
    ])
    .expect("prepares");
    assert_eq!(
        names(&sources),
        vec![
            "ant",
            "input/a.txt",
            "input/m.txt",
            "input/nested/b.txt",
            "input/z.txt",
            "zoo"
        ]
    );
    assert_eq!(sources[0].path, "/tmp/y/ant");
}

#[test]
fn the_order_of_the_inputs_makes_no_difference() {
    let zoo = || input("/tmp/x/zoo", Some(FileNode::File));
    let tree = || input("/tmp/x/input", Some(source_tree()));
    let ant = || input("/tmp/y/ant", Some(FileNode::File));
    let expected = prepare_files(&vec![zoo(), tree(), ant()]).unwrap();
    for inputs in [
        vec![zoo(), ant(), tree()],
        vec![ant(), tree(), zoo()],
        vec![tree(), zoo(), ant()],
    ] {
        assert_eq!(prepare_files(&inputs).unwrap(), expected);
    }
}

#[test]
fn an_input_whose_name_is_not_text_has_no_root_name() {
    let err = walk_files("/tmp/x/\u{fffd}", Some(&FileNode::NotUtf8)).expect_err("no root name");
    assert!(matches!(err, SendError::InvalidRootName { .. }), "{err:?}");
    let tree = FileNode::Directory(vec![entry("\u{fffd}", FileNode::NotUtf8)]);
    let err = walk_files("/tmp/x/input", Some(&tree)).expect_err("below a directory");
    assert!(matches!(err, SendError::InvalidUtf8PathComponent { .. }), "{err:?}");
}

#[test]
fn a_walk_reports_what_it_cannot_take() {
    let kinds = [
        (FileNode::Other, "UnsupportedFileType"),
        (FileNode::Unlistable("denied".to_string()), "ReadDirectory"),
        (FileNode::Unreadable("denied".to_string()), "ReadMetadata"),
    ];
    for (node, kind) in kinds {
        let err = walk_files("/tmp/x/input", Some(&node)).expect_err(kind);
        assert!(format!("{err:?}").starts_with(kind), "{err:?}");
    }
    let tree = FileNode::Directory(vec![DirEntry::NotUtf8("/tmp/x/input/\u{fffd}".to_string())]);
    let err = walk_files("/tmp/x/input", Some(&tree)).expect_err("not UTF-8");
    assert!(matches!(err, SendError::InvalidUtf8PathComponent { .. }), "{err:?}");
    let tree = FileNode::Directory(vec![DirEntry::Broken("io".to_string())]);
    let err = walk_files("/tmp/x/input", Some(&tree)).expect_err("broken listing");
    assert!(matches!(err, SendError::ReadDirectory { .. }), "{err:?}");
}

#[test]
fn an_import_that_fails_names_the_file() {
    let source = || SourceFile { name: "a".to_string(), path: "/tmp/a".to_string() };
    let mut import = Import::new(vec![source()]);
    assert_eq!(import.next_path(), Some("/tmp/a"));
    assert_eq!(
        import.report(ImportItem::Error("full".to_string())).unwrap_err(),
        SendError::Import { name: "a".to_string(), source: "full".to_string() }
    );
    let mut import = Import::new(vec![source()]);
    assert_eq!(
        import.report(ImportItem::Ended).unwrap_err(),
        SendError::ImportStreamEnded { name: "a".to_string() }
    );
}

#[test]
fn sizes_that_overflow_the_total_are_noticed() {
    let source = |name: &str| SourceFile { name: name.to_string(), path: name.to_string() };
    let mut import = Import::new(vec![source("a"), source("b")]);
    import.report(ImportItem::Size(u64::MAX)).unwrap();
    assert!(import.fits());
    import.report(ImportItem::Done([0; 32])).unwrap();
    import.report(ImportItem::Size(1)).unwrap();
    assert!(!import.fits());
}

#[test]
fn send_errors_name_the_path() {
    let text = SendError::MissingSource { path: "/tmp/nope".to_string() }.to_string();
    assert!(text.contains("/tmp/nope"), "{text}");
    let text = SendError::DuplicateName { name: "input/same.txt".to_string() }.to_string();
    assert!(text.contains("input/same.txt"), "{text}");
    let text = SendError::StoreCollection { source: "disk".to_string() }.to_string();
    assert!(text.contains("disk"), "{text}");
}
