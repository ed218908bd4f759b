use trash_tool::error::{AppError, IoErrorKind, IoFailure};
use trash_tool::restoring::{
    find_trash_entries_in_dirs, is_trash_info_file, read_info_file, restore_report,
    stored_item_path, strip_info_suffix, with_default_binds, InfoFile, RecordReading,
    RestoreOutcome, TrashEntry,
};

fn info_file(trash_dir: &str, name: &str, content: &str) -> InfoFile {
    InfoFile {
        trash_dir: trash_dir.to_string(),
        info_path: format!("{}/info/{}", trash_dir, name),
        content: content.to_string(),
        item_exists: true,
    }
}

fn orphan(trash_dir: &str, name: &str, content: &str) -> InfoFile {
    InfoFile { item_exists: false, ..info_file(trash_dir, name, content) }
}

#[test]
fn test_trash_entry_skim_item_text() {
    let entry = TrashEntry {
        trashed_path: "/trash/files/test.txt".to_string(),
        info_path: "/trash/info/test.txt.trashinfo".to_string(),
        original_path: "/home/user/documents/test.txt".to_string(),
        deletion_date: "2024-01-01T12:00:00".to_string(),
    };
    let expected_text =
        "2024-01-01T12:00:00  /home/user/documents/test.txt <= /trash/files/test.txt";
    assert_eq!(
        entry.text(),
        expected_text,
        "The SkimItem text format should match the expected output."
    );
}

#[test]
fn test_find_trash_entries_in_dirs() {
    let root = "/tmp/trash_root";
    let files = vec![
        info_file(
            root,
            "file1.txt.trashinfo",
            "[Trash Info]\nPath=/home/user/file1.txt\nDeletionDate=2024-01-01T12:00:00\n",
        ),
        info_file(
            root,
            "archive.tar.gz.trashinfo",
            "[Trash Info]\nPath=/home/user/archive.tar.gz\nDeletionDate=2024-01-02T12:00:00\n",
        ),
        info_file(
            root,
            "incomplete.txt.trashinfo",
            "[Trash Info]\nDeletionDate=2024-01-03T12:00:00\n",
        ),
        info_file(root, "not-a-trashinfo.log", ""),
    ];
    let outcome = find_trash_entries_in_dirs(&files);
    let entries = outcome.entries;
    assert_eq!(entries.len(), 2, "Should find exactly two valid entries");
    assert!(outcome.undecodable.is_empty());
    assert!(outcome.missing_item.is_empty());
    assert_eq!(outcome.incomplete, vec!["/tmp/trash_root/info/incomplete.txt.trashinfo".to_string()]);

    let mut sorted_entries = entries;
    sorted_entries.sort_by(|a, b| a.deletion_date.cmp(&b.deletion_date));

    let entry1 = &sorted_entries[0];
    assert_eq!(entry1.original_path, "/home/user/file1.txt");
    assert_eq!(entry1.trashed_path, "/tmp/trash_root/files/file1.txt");
    assert_eq!(entry1.info_path, "/tmp/trash_root/info/file1.txt.trashinfo");
    assert_eq!(entry1.deletion_date, "2024-01-01T12:00:00");

    let entry2 = &sorted_entries[1];
    assert_eq!(entry2.original_path, "/home/user/archive.tar.gz");
    assert_eq!(entry2.trashed_path, "/tmp/trash_root/files/archive.tar.gz");
    assert_eq!(entry2.info_path, "/tmp/trash_root/info/archive.tar.gz.trashinfo");
}

#[test]
fn a_record_without_path_does_not_stop_the_scan() {
    let files = vec![
        info_file("/t", "a.trashinfo", "[Trash Info]\nPath=/a\nDeletionDate=d1\n"),
        info_file("/t", "b.trashinfo", "[Trash Info]\nDeletionDate=d2\n"),
        info_file("/u", "c.trashinfo", "[Trash Info]\nPath=/c\nDeletionDate=d3\n"),
    ];
    let outcome = find_trash_entries_in_dirs(&files);
    let found: Vec<&str> = outcome.entries.iter().map(|e| e.original_path.as_str()).collect();
    assert_eq!(found, vec!["/a", "/c"]);
    assert_eq!(outcome.entries[1].trashed_path, "/u/files/c");
}

#[test]
fn a_record_without_its_item_gives_no_entry() {
    let complete = "[Trash Info]\nPath=/home/user/x\nDeletionDate=2024-01-01T12:00:00\n";
    let files = vec![
        orphan("/d", "x.trashinfo", complete),
        info_file("/d", "y.trashinfo", "[Trash Info]\nPath=/home/user/y\nDeletionDate=d\n"),
    ];
    let outcome = find_trash_entries_in_dirs(&files);
    assert!(outcome.entries.iter().all(|e| e.info_path != "/d/info/x.trashinfo"));
    assert_eq!(outcome.entries.len(), 1);
    assert_eq!(outcome.entries[0].info_path, "/d/info/y.trashinfo");
    assert_eq!(outcome.missing_item, vec!["/d/info/x.trashinfo".to_string()]);
    assert!(outcome.incomplete.is_empty() && outcome.undecodable.is_empty());

    let only = find_trash_entries_in_dirs(&vec![orphan("/d", "x.trashinfo", complete)]);
    assert!(only.entries.is_empty());
}

#[test]
fn a_record_without_its_date_is_reported_as_incomplete() {
    let files = vec![
        info_file("/t", "a.trashinfo", "[Trash Info]\nPath=/a\n"),
        orphan("/t", "b.trashinfo", "[Trash Info]\nDeletionDate=d\n"),
        info_file("/t", "c.log", "nothing"),
    ];
    let outcome = find_trash_entries_in_dirs(&files);
    assert!(outcome.entries.is_empty());
    assert_eq!(
        outcome.incomplete,
        vec!["/t/info/a.trashinfo".to_string(), "/t/info/b.trashinfo".to_string()]
    );
    assert!(outcome.missing_item.is_empty());
}

#[test]
fn stored_item_path_pairs_a_record_with_its_item() {
    assert_eq!(
        stored_item_path("/t", "/t/info/archive.tar.gz.trashinfo"),
        Some("/t/files/archive.tar.gz".to_string())
    );
    assert_eq!(stored_item_path("/t", "/t/info/notes.txt"), None);
}

#[test]
fn a_record_that_does_not_decode_is_reported() {
    let files = vec![
        info_file("/t", "bad.trashinfo", "[Trash Info]\nPath=/a/%C3%28\nDeletionDate=d\n"),
        info_file("/t", "ok.trashinfo", "[Trash Info]\nPath=/a%20b\nDeletionDate=d\n"),
    ];
    let outcome = find_trash_entries_in_dirs(&files);
    assert_eq!(outcome.undecodable, vec!["/t/info/bad.trashinfo".to_string()]);
    assert_eq!(outcome.entries.len(), 1);
    assert_eq!(outcome.entries[0].original_path, "/a b");
}

#[test]
fn readings_are_told_apart() {
    assert!(matches!(
        read_info_file(&info_file("/t", "x.log", "Path=/a\nDeletionDate=d\n")),
        RecordReading::NotARecord
    ));
    assert!(matches!(
        read_info_file(&info_file("/t", "x.trashinfo", "Path=/a\n")),
        RecordReading::Incomplete
    ));
    assert!(matches!(
        read_info_file(&info_file("/t", "x.trashinfo", "Path=%FF\nDeletionDate=d\n")),
        RecordReading::Undecodable
    ));
    assert!(matches!(
        read_info_file(&info_file("/t", "x.trashinfo", "Path=/a\nDeletionDate=d\n")),
        RecordReading::Entry(_)
    ));
    assert!(matches!(
        read_info_file(&orphan("/t", "x.trashinfo", "Path=/a\nDeletionDate=d\n")),
        RecordReading::MissingItem
    ));
    assert!(matches!(
        read_info_file(&orphan("/t", "x.trashinfo", "Path=%FF\nDeletionDate=d\n")),
        RecordReading::Undecodable
    ));
}

#[test]
fn record_names() {
    assert!(is_trash_info_file("/t/info/a.txt.trashinfo"));
    assert!(!is_trash_info_file("/t/info/a.txt"));
    assert!(!is_trash_info_file("/t/info/.trashinfo"));
    assert!(!is_trash_info_file("/t/info/trashinfo"));
    assert_eq!(strip_info_suffix("a.txt.trashinfo"), "a.txt");
    assert_eq!(strip_info_suffix("a.txt"), "a.txt");
    assert_eq!(strip_info_suffix(".trashinfo"), "");
}

#[test]
fn report_tells_each_return() {
    let outcomes = vec![
        RestoreOutcome { original_path: "/a".to_string(), result: Ok("/a".to_string()) },
        RestoreOutcome {
            original_path: "/b".to_string(),
            result: Err(AppError::RestoreCollision { path: "/b".to_string() }),
        },
    ];
    let report = restore_report(&outcomes);
    assert_eq!(
        report.messages,
        vec![
            "Restored: /a".to_string(),
            "Failed to restore '/b': Destination '/b' already exists. Cannot restore."
                .to_string(),
        ]
    );
    assert!(report.had_errors);
    let report = restore_report(&outcomes[..1].iter().map(|o| RestoreOutcome {
        original_path: o.original_path.clone(),
        result: Ok("/a".to_string()),
    }).collect());
    assert!(!report.had_errors);
    let report = restore_report(&Vec::new());
    assert!(report.messages.is_empty() && !report.had_errors);
}

#[test]
fn default_binds_come_first() {
    assert_eq!(
        with_default_binds(vec!["Enter:ignore".to_string()]),
        vec![
            "Enter:accept".to_string(),
            "Esc:abort".to_string(),
            "ctrl-c:abort".to_string(),
            "Enter:ignore".to_string(),
        ]
    );
}

#[test]
fn errors_are_told_in_words() {
    let io = |m: &str| IoFailure { kind: IoErrorKind::Other, message: m.to_string() };
    let cases: Vec<(AppError, &str)> = vec![
        (AppError::Io { path: "/p".to_string(), source: io("boom") }, "I/O error for '/p': boom"),
        (AppError::GenericIo(io("boom")), "I/O error: boom"),
        (
            AppError::TrashInfoParse { path: "/p".to_string(), reason: "bad".to_string() },
            "Failed to parse trash info file '/p': bad",
        ),
        (
            AppError::RestoreCollision { path: "/p".to_string() },
            "Destination '/p' already exists. Cannot restore.",
        ),
        (
            AppError::TrashedItemNotFound { path: "/p".to_string() },
            "Trashed item '/p' not found. The trash directory might be in an inconsistent state.",
        ),
        (AppError::NoTrashDirectories, "No trash directories found."),
        (AppError::AlreadyInTrash { path: "/p".to_string() }, "Item '/p' is already in the trash."),
        (AppError::SymbolicLink { path: "/p".to_string() }, "Trash '/p' is symbolic link."),
        (
            AppError::CrossDeviceMove { path: "/p".to_string() },
            "Cross-device move not supported for '/p'. The destination is on a different filesystem.",
        ),
        (AppError::Mountpoints("m".to_string()), "Failed to read mount points: m"),
        (AppError::SystemTime("t".to_string()), "System time error: t"),
        (AppError::FromUtf8("u".to_string()), "UTF-8 conversion error: u"),
        (AppError::Message("hello".to_string()), "hello"),
        (AppError::Ignorable, "Ignorable Error"),
    ];
    for (error, expected) in cases {
        assert_eq!(error.message(), expected);
    }
    match AppError::from("plain") {
        AppError::Message(m) => assert_eq!(m, "plain"),
        other => panic!("unexpected: {:?}", other),
    }
}
