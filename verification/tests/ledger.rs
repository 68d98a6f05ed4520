use r2_storage::error::StorageError;
use r2_storage::files::WriteOutcome;
use r2_storage::storage::{FileHistory, FileMetadata, HistoryFile};

fn record(key: &str, uploaded_at: i64) -> FileMetadata {
    FileMetadata {
        key: key.to_string(),
        filename: format!("{key}.bin"),
        size: 42,
        content_type: "application/octet-stream".to_string(),
        public_url: format!("https://cdn.example.com/{key}"),
        uploaded_at,
    }
}

fn keys(history: &FileHistory) -> Vec<String> {
    history.files.iter().map(|f| f.key.clone()).collect()
}

#[test]
fn new_ledger_is_empty() {
    assert!(FileHistory::new().files.is_empty());
}

#[test]
fn added_record_comes_first() {
    let mut history = FileHistory::new();
    history.add_file(record("a", 1));
    history.add_file(record("b", 2));
    history.add_file(record("c", 3));
    assert_eq!(keys(&history), vec!["c", "b", "a"]);
    assert_eq!(history.files[0], record("c", 3));
}

#[test]
fn added_record_is_first_after_reading_back() {
    let mut history = FileHistory::new();
    history.add_file(record("old", 1));
    history.add_file(record("new", 2));
    let copy = FileHistory { files: history.files.clone() };
    let read = FileHistory::load(HistoryFile::Parsed(copy)).unwrap();
    assert_eq!(read.files[0], record("new", 2));
    assert_eq!(read.files[1], record("old", 1));
    assert_eq!(read.files.len(), 2);
}

#[test]
fn removing_keeps_the_order_of_the_rest() {
    let mut history = FileHistory::new();
    for (i, key) in ["a", "b", "c", "d"].iter().enumerate() {
        history.add_file(record(key, i as i64));
    }
    assert!(history.remove_file("b"));
    assert_eq!(keys(&history), vec!["d", "c", "a"]);
    assert!(!history.files.iter().any(|f| f.key == "b"));
}

#[test]
fn removing_an_unknown_key_changes_nothing() {
    let mut history = FileHistory::new();
    history.add_file(record("a", 1));
    history.add_file(record("b", 2));
    let before = history.files.clone();
    assert!(!history.remove_file("nonexistent-key"));
    assert_eq!(history.files, before);
}

#[test]
fn removing_from_the_empty_ledger_changes_nothing() {
    let mut history = FileHistory::new();
    assert!(!history.remove_file("a"));
    assert!(history.files.is_empty());
}

#[test]
fn removing_takes_only_the_first_of_two_equal_keys() {
    let mut history = FileHistory::new();
    history.add_file(record("same", 1));
    history.add_file(record("other", 2));
    history.add_file(record("same", 3));
    assert!(history.remove_file("same"));
    assert_eq!(history.files, vec![record("other", 2), record("same", 1)]);
    assert!(history.remove_file("same"));
    assert_eq!(history.files, vec![record("other", 2)]);
    assert!(!history.remove_file("same"));
}

#[test]
fn removing_matches_the_whole_key_only() {
    let mut history = FileHistory::new();
    history.add_file(record("1700000000-a.txt", 1));
    assert!(!history.remove_file("1700000000-a"));
    assert!(!history.remove_file("1700000000-a.txt "));
    assert!(!history.remove_file(""));
    assert!(history.remove_file("1700000000-a.txt"));
}

#[test]
fn missing_ledger_file_is_the_empty_ledger() {
    assert_eq!(FileHistory::load(HistoryFile::Missing), Ok(FileHistory::new()));
}

#[test]
fn parsed_ledger_is_returned_as_it_is() {
    let mut history = FileHistory::new();
    history.add_file(record("a", 1));
    history.add_file(record("b", 2));
    let copy = FileHistory { files: history.files.clone() };
    assert_eq!(FileHistory::load(HistoryFile::Parsed(copy)), Ok(history));
    assert_eq!(
        FileHistory::load(HistoryFile::Parsed(FileHistory::new())),
        Ok(FileHistory::new())
    );
}

#[test]
fn ledger_read_failures() {
    assert_eq!(
        FileHistory::load(HistoryFile::NoHomeDirectory),
        Err(StorageError::LedgerIoFailure("Failed to get home directory".to_string()))
    );
    assert_eq!(
        FileHistory::load(HistoryFile::Unreadable("permission denied".to_string())),
        Err(StorageError::LedgerIoFailure(
            "Failed to read history file: permission denied".to_string()
        ))
    );
    assert_eq!(
        FileHistory::load(HistoryFile::Malformed("expected value at line 1".to_string())),
        Err(StorageError::LedgerParseFailure(
            "Failed to parse history file: expected value at line 1".to_string()
        ))
    );
}

#[test]
fn ledger_write_outcomes() {
    assert_eq!(FileHistory::save(WriteOutcome::Written), Ok(()));
    assert_eq!(
        FileHistory::save(WriteOutcome::NoHomeDirectory),
        Err(StorageError::LedgerIoFailure("Failed to get home directory".to_string()))
    );
    assert_eq!(
        FileHistory::save(WriteOutcome::DirectoryFailed("read-only".to_string())),
        Err(StorageError::LedgerIoFailure("Failed to create directory: read-only".to_string()))
    );
    assert_eq!(
        FileHistory::save(WriteOutcome::SerializeFailed("bad".to_string())),
        Err(StorageError::LedgerIoFailure("Failed to serialize history: bad".to_string()))
    );
    assert_eq!(
        FileHistory::save(WriteOutcome::WriteFailed("disk full".to_string())),
        Err(StorageError::LedgerIoFailure("Failed to write history file: disk full".to_string()))
    );
}

#[test]
fn recording_an_upload_at_a_given_time() {
    let mut history = FileHistory::new();
    history.add_file(record("earlier", 5));
    history.record_upload_at(
        "1700000000-report.pdf".to_string(),
        "report.pdf".to_string(),
        1234,
        "application/pdf".to_string(),
        "https://cdn.example.com/1700000000-report.pdf".to_string(),
        1700000007,
    );
    assert_eq!(
        history.files[0],
        FileMetadata {
            key: "1700000000-report.pdf".to_string(),
            filename: "report.pdf".to_string(),
            size: 1234,
            content_type: "application/pdf".to_string(),
            public_url: "https://cdn.example.com/1700000000-report.pdf".to_string(),
            uploaded_at: 1700000007,
        }
    );
    assert_eq!(history.files[1], record("earlier", 5));
    assert_eq!(history.files.len(), 2);
}

#[test]
fn recording_an_upload_now_takes_the_clock() {
    let before = std::time::SystemTime::now()
        .duration_since(std::time::UNIX_EPOCH)
        .unwrap()
        .as_secs() as i64;
    let mut history = FileHistory::new();
    history.record_upload(
        "k".to_string(),
        "f".to_string(),
        u64::MAX,
        "text/plain".to_string(),
        "u".to_string(),
    );
    let after = std::time::SystemTime::now()
        .duration_since(std::time::UNIX_EPOCH)
        .unwrap()
        .as_secs() as i64;
    assert_eq!(history.files.len(), 1);
    let stored = &history.files[0];
    assert!(before <= stored.uploaded_at && stored.uploaded_at <= after);
    assert_eq!(stored.key, "k");
    assert_eq!(stored.filename, "f");
    assert_eq!(stored.size, u64::MAX);
    assert_eq!(stored.content_type, "text/plain");
    assert_eq!(stored.public_url, "u");
}

#[test]
fn cloned_record_is_equal() {
    let r = record("a", -3);
    assert_eq!(r.clone(), r);
}
