//! The ledger of uploaded files: an ordered list of records, newest first.

use vstd::prelude::*;
use crate::clock::unix_time_now;
use crate::error::{join, unit_result_is, Failure, StorageError};
use crate::files::WriteOutcome;

verus! {

/// One completed upload.
#[derive(Debug, PartialEq, Eq)]
pub struct FileMetadata {
    pub key: String,
    pub filename: String,
    pub size: u64,
    pub content_type: String,
    pub public_url: String,
    pub uploaded_at: i64,
}

/// What a `FileMetadata` holds, as mathematical values.
pub struct FileRecord {
    pub key: Seq<char>,
    pub filename: Seq<char>,
    pub size: u64,
    pub content_type: Seq<char>,
    pub public_url: Seq<char>,
    pub uploaded_at: i64,
}

impl View for FileMetadata {
    type V = FileRecord;

    open spec fn view(&self) -> FileRecord {
        FileRecord {
            key: self.key@,
            filename: self.filename@,
            size: self.size,
            content_type: self.content_type@,
            public_url: self.public_url@,
            uploaded_at: self.uploaded_at,
        }
    }
}

impl Clone for FileMetadata {
    fn clone(&self) -> (copy: Self)
        ensures
            copy@ == self@,
    {
        FileMetadata {
            key: self.key.clone(),
            filename: self.filename.clone(),
            size: self.size,
            content_type: self.content_type.clone(),
            public_url: self.public_url.clone(),
            uploaded_at: self.uploaded_at,
        }
    }
}

/// The records of all uploads, most recent first.
#[derive(Debug, PartialEq, Eq)]
pub struct FileHistory {
    pub files: Vec<FileMetadata>,
}

impl View for FileHistory {
    type V = Seq<FileRecord>;

    open spec fn view(&self) -> Seq<FileRecord> {
        self.files@.map_values(|m: FileMetadata| m@)
    }
}

/// What was found where the ledger file should be.
#[derive(Debug, PartialEq, Eq)]
pub enum HistoryFile {
    /// The user's home directory is not known.
    NoHomeDirectory,
    /// There is no ledger file: nothing was uploaded yet.
    Missing,
    /// The file is there and could not be read.
    Unreadable(String),
    /// The file was read and is no ledger.
    Malformed(String),
    /// The file holds this ledger.
    Parsed(FileHistory),
}

/// What reading the ledger file comes to: the ledger that it holds, the
/// empty ledger where there is no file, or the failure.
pub open spec fn load_result(file: HistoryFile) -> Result<Seq<FileRecord>, Failure> {
    match file {
        HistoryFile::NoHomeDirectory => Err(
            Failure::LedgerIoFailure("Failed to get home directory"@),
        ),
        HistoryFile::Missing => Ok(Seq::<FileRecord>::empty()),
        HistoryFile::Unreadable(reason) => Err(
            Failure::LedgerIoFailure("Failed to read history file: "@ + reason@),
        ),
        HistoryFile::Malformed(reason) => Err(
            Failure::LedgerParseFailure("Failed to parse history file: "@ + reason@),
        ),
        HistoryFile::Parsed(history) => Ok(history@),
    }
}

/// What writing the ledger file comes to.
pub open spec fn save_result(outcome: WriteOutcome) -> Result<(), Failure> {
    match outcome {
        WriteOutcome::NoHomeDirectory => Err(
            Failure::LedgerIoFailure("Failed to get home directory"@),
        ),
        WriteOutcome::DirectoryFailed(reason) => Err(
            Failure::LedgerIoFailure("Failed to create directory: "@ + reason@),
        ),
        WriteOutcome::SerializeFailed(reason) => Err(
            Failure::LedgerIoFailure("Failed to serialize history: "@ + reason@),
        ),
        WriteOutcome::WriteFailed(reason) => Err(
            Failure::LedgerIoFailure("Failed to write history file: "@ + reason@),
        ),
        WriteOutcome::Written => Ok(()),
    }
}

/// Whether some record of `records` has the key `key`.
pub open spec fn has_key(records: Seq<FileRecord>, key: Seq<char>) -> bool {
    exists|i: int| 0 <= i < records.len() && (#[trigger] records[i]).key == key
}

/// Whether `i` is the position of the first record of `records` with the key `key`.
pub open spec fn is_first_match(records: Seq<FileRecord>, key: Seq<char>, i: int) -> bool {
    &&& 0 <= i < records.len()
    &&& records[i].key == key
    &&& forall|j: int| 0 <= j < i ==> (#[trigger] records[j]).key != key
}

/// `records` without the first record whose key is `key`; `records` itself
/// where no record has that key.
pub open spec fn without_first(records: Seq<FileRecord>, key: Seq<char>) -> Seq<FileRecord> {
    if exists|i: int| is_first_match(records, key, i) {
        records.remove(choose|i: int| is_first_match(records, key, i))
    } else {
        records
    }
}

/// Whether `key` is the key of at most one record of `records`.
pub open spec fn at_most_once(records: Seq<FileRecord>, key: Seq<char>) -> bool {
    forall|i: int, j: int|
        0 <= i < records.len() && 0 <= j < records.len() && (#[trigger] records[i]).key == key
            && (#[trigger] records[j]).key == key ==> i == j
}

/// Where some record up to position `i` has the key, one of them is the first.
proof fn lemma_first_match_exists(records: Seq<FileRecord>, key: Seq<char>, i: int)
    requires
        0 <= i < records.len(),
        records[i].key == key,
    ensures
        exists|k: int| 0 <= k <= i && is_first_match(records, key, k),
    decreases i,
{
    if exists|j: int| 0 <= j < i && (#[trigger] records[j]).key == key {
        let j = choose|j: int| 0 <= j < i && (#[trigger] records[j]).key == key;
        lemma_first_match_exists(records, key, j);
    } else {
        assert(is_first_match(records, key, i));
    }
}

/// A ledger that was added to and is read back holds the added record
/// first, and behind it all that it held before, in the same order.
pub proof fn law_added_record_is_first(before: FileHistory, metadata: FileMetadata, after: FileHistory)
    requires
        after@ == seq![metadata@] + before@,
    ensures
        load_result(HistoryFile::Parsed(after)) matches Ok(found) && found.len() == before@.len()
            + 1 && found[0] == metadata@ && found.drop_first() == before@,
{
    assert(after@.drop_first() =~= before@);
}

/// Removing by key takes out the first record with that key and nothing
/// else: without such a record the ledger is as before, and the records
/// with any other key stay, in the order they had.
pub proof fn law_remove_keeps_order(records: Seq<FileRecord>, key: Seq<char>)
    ensures
        !has_key(records, key) ==> without_first(records, key) == records,
        has_key(records, key) ==> exists|i: int|
            is_first_match(records, key, i) && without_first(records, key) == records.remove(i),
        without_first(records, key).filter(|r: FileRecord| r.key != key) == records.filter(
            |r: FileRecord| r.key != key,
        ),
{
    let others = |r: FileRecord| r.key != key;
    if has_key(records, key) {
        let m = choose|m: int| 0 <= m < records.len() && (#[trigger] records[m]).key == key;
        lemma_first_match_exists(records, key, m);
        let i = choose|i: int| is_first_match(records, key, i);
        let head = records.subrange(0, i);
        let one = records.subrange(i, i + 1);
        let tail = records.subrange(i + 1, records.len() as int);
        assert(records =~= head + one + tail);
        assert(records.remove(i) =~= head + tail);
        Seq::filter_distributes_over_add(head + one, tail, others);
        Seq::filter_distributes_over_add(head, one, others);
        Seq::filter_distributes_over_add(head, tail, others);
        assert(one.filter(others) =~= Seq::<FileRecord>::empty()) by {
            reveal_with_fuel(Seq::filter, 2);
            assert(one.drop_last().len() == 0);
            assert(one.last() == records[i]);
            assert(!others(one.last()));
        }
        assert(head.filter(others) + one.filter(others) =~= head.filter(others));
    } else {
        assert forall|k: int| !is_first_match(records, key, k) by {
            if 0 <= k < records.len() {
                assert(records[k].key != key);
            }
        }
    }
}

/// Where at most one record has the key, no record has it once it was
/// removed.
pub proof fn law_removed_key_is_gone(records: Seq<FileRecord>, key: Seq<char>)
    requires
        at_most_once(records, key),
    ensures
        !has_key(without_first(records, key), key),
{
    law_remove_keeps_order(records, key);
    if has_key(records, key) {
        let i = choose|i: int| is_first_match(records, key, i);
        let rest = records.remove(i);
        assert forall|k: int| 0 <= k < rest.len() implies (#[trigger] rest[k]).key != key by {
            if k < i {
                assert(rest[k] == records[k]);
            } else {
                assert(rest[k] == records[k + 1]);
            }
        }
    }
}

impl FileHistory {
    /// The empty ledger.
    pub fn new() -> (history: Self)
        ensures
            history@ == Seq::<FileRecord>::empty(),
    {
        FileHistory { files: Vec::new() }
    }

    /// The ledger that the file holds; the empty ledger where there is no
    /// file, which is the state before the first upload and no failure.
    pub fn load(file: HistoryFile) -> (result: Result<FileHistory, StorageError>)
        ensures
            match result {
                Ok(history) => load_result(file) == Ok::<Seq<FileRecord>, Failure>(history@),
                Err(error) => load_result(file) == Err::<Seq<FileRecord>, Failure>(error@),
            },
    {
        match file {
            HistoryFile::NoHomeDirectory => Err(
                StorageError::LedgerIoFailure("Failed to get home directory".to_owned()),
            ),
            HistoryFile::Missing => Ok(FileHistory::new()),
            HistoryFile::Unreadable(reason) => Err(
                StorageError::LedgerIoFailure(
                    join("Failed to read history file: ", reason.as_str()),
                ),
            ),
            HistoryFile::Malformed(reason) => Err(
                StorageError::LedgerParseFailure(
                    join("Failed to parse history file: ", reason.as_str()),
                ),
            ),
            HistoryFile::Parsed(history) => Ok(history),
        }
    }

    /// What an attempt to write the ledger file is reported as.
    pub fn save(outcome: WriteOutcome) -> (result: Result<(), StorageError>)
        ensures
            unit_result_is(result, save_result(outcome)),
    {
        match outcome {
            WriteOutcome::NoHomeDirectory => Err(
                StorageError::LedgerIoFailure("Failed to get home directory".to_owned()),
            ),
            WriteOutcome::DirectoryFailed(reason) => Err(
                StorageError::LedgerIoFailure(
                    join("Failed to create directory: ", reason.as_str()),
                ),
            ),
            WriteOutcome::SerializeFailed(reason) => Err(
                StorageError::LedgerIoFailure(
                    join("Failed to serialize history: ", reason.as_str()),
                ),
            ),
            WriteOutcome::WriteFailed(reason) => Err(
                StorageError::LedgerIoFailure(
                    join("Failed to write history file: ", reason.as_str()),
                ),
            ),
            WriteOutcome::Written => Ok(()),
        }
    }

    /// Records an upload that was completed at `uploaded_at`, in front of
    /// all earlier records. It is for the caller to record only what was
    /// sent: an authorisation alone is no upload.
    pub fn record_upload_at(
        &mut self,
        key: String,
        filename: String,
        size: u64,
        content_type: String,
        public_url: String,
        uploaded_at: i64,
    )
        ensures
            final(self)@ == seq![
                FileRecord {
                    key: key@,
                    filename: filename@,
                    size,
                    content_type: content_type@,
                    public_url: public_url@,
                    uploaded_at,
                },
            ] + old(self)@,
    {
        self.add_file(
            FileMetadata { key, filename, size, content_type, public_url, uploaded_at },
        );
    }

    /// Records an upload that was completed just now: the record holds the
    /// time that the clock gave.
    pub fn record_upload(
        &mut self,
        key: String,
        filename: String,
        size: u64,
        content_type: String,
        public_url: String,
    )
        ensures
            exists|uploaded_at: i64|
                final(self)@ == seq![
                    FileRecord {
                        key: key@,
                        filename: filename@,
                        size,
                        content_type: content_type@,
                        public_url: public_url@,
                        uploaded_at,
                    },
                ] + old(self)@,
    {
        let uploaded_at = unix_time_now();
        let ghost record = FileRecord {
            key: key@,
            filename: filename@,
            size,
            content_type: content_type@,
            public_url: public_url@,
            uploaded_at,
        };
        self.record_upload_at(key, filename, size, content_type, public_url, uploaded_at);
        assert(self@ == seq![record] + old(self)@);
    }

    /// Puts `metadata` in front of all earlier records.
    pub fn add_file(&mut self, metadata: FileMetadata)
        ensures
            final(self)@ == seq![metadata@] + old(self)@,
    {
        self.files.insert(0, metadata);
        assert(self@ =~= seq![metadata@] + old(self)@);
    }

    /// Removes the first record whose key is `key`, and says whether there
    /// was one. Without such a record the ledger stays as it is.
    pub fn remove_file(&mut self, key: &str) -> (removed: bool)
        ensures
            removed == has_key(old(self)@, key@),
            final(self)@ == without_first(old(self)@, key@),
    {
        let wanted = key.to_owned();
        let mut i: usize = 0;
        while i < self.files.len()
            invariant
                i <= self.files.len(),
                wanted@ == key@,
                *self == *old(self),
                forall|j: int| 0 <= j < i ==> (#[trigger] self@[j]).key != key@,
            decreases self.files.len() - i,
        {
            if self.files[i].key == wanted {
                proof {
                    assert(self@[i as int].key == key@);
                    assert(is_first_match(self@, key@, i as int));
                    let chosen = choose|k: int| is_first_match(self@, key@, k);
                    assert(chosen == i) by {
                        if chosen < i {
                            assert(self@[chosen].key != key@);
                        } else if i < chosen {
                            assert(self@[i as int].key == key@);
                        }
                    }
                }
                self.files.remove(i);
                assert(self@ =~= old(self)@.remove(i as int));
                return true;
            }
            i += 1;
        }
        proof {
            assert forall|k: int| !is_first_match(self@, key@, k) by {
                if 0 <= k < self@.len() {
                    assert(self@[k].key != key@);
                }
            }
        }
        false
    }
}

} // verus!
