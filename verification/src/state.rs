//! The read-modify-write protocol around the state file.
//!
//! The handle owns the path of the file and decides what a reading means and
//! what is to be written. It performs no I/O itself: a caller hands over what
//! it found at the path as a `StateFile` and carries out the `FileWrite` it
//! gets back, replacing the file's contents as a whole and atomically.
//!
//! Nothing here locks the file. Two callers that set the head of one
//! repository at once race, and the last write wins.

use crate::clock::read_clock;
use crate::document::{parse_document, parsed_document, render_document, rendered_document};
use crate::record::{
    decoded, default_record, lemma_record_round_trip, record_items, Oplog, OplogView,
};
use crate::timestamp::{max_nanos, Timestamp};
use vstd::prelude::*;

verus! {

/// Name of the state file inside a repository's base directory.
pub const OPLOG_FILE_NAME: &'static str = "operations-log.toml";

/// Why nothing is written while the clock stands outside the range of a
/// timestamp.
pub const CLOCK_OUT_OF_RANGE: &'static str = "SystemTime must be later than UNIX_EPOCH";

/// What went wrong with the state file.
#[derive(Clone, Debug, PartialEq, Eq)]
pub enum Error {
    /// The file could not be read or written, or its new contents could not
    /// be produced; with the cause.
    Io(String),
    /// The file is there and holds no valid record.
    Parse {
        /// The path of the file.
        path: String,
        /// What the decoder objected to.
        cause: String,
    },
}

/// An `Error` as a mathematical value.
pub enum ErrorView {
    /// Reading, writing or rendering failed; with the cause.
    Io(Seq<char>),
    /// The file at `path` holds no valid record; with the cause.
    Parse { path: Seq<char>, cause: Seq<char> },
}

impl View for Error {
    type V = ErrorView;

    open spec fn view(&self) -> ErrorView {
        match self {
            Error::Io(cause) => ErrorView::Io(cause@),
            Error::Parse { path, cause } => ErrorView::Parse { path: path@, cause: cause@ },
        }
    }
}

/// What a caller found at the path of the state file.
#[derive(Clone, Debug, PartialEq, Eq)]
pub enum StateFile {
    /// No file exists there.
    Missing,
    /// The file exists and this is its whole text.
    Contents(String),
    /// The file exists and could not be read; with the cause.
    Unreadable(String),
}

/// A `StateFile` as a mathematical value.
pub enum StateFileView {
    /// No file.
    Missing,
    /// A file with this text.
    Contents(Seq<char>),
    /// A file that could not be read; with the cause.
    Unreadable(Seq<char>),
}

impl View for StateFile {
    type V = StateFileView;

    open spec fn view(&self) -> StateFileView {
        match self {
            StateFile::Missing => StateFileView::Missing,
            StateFile::Contents(text) => StateFileView::Contents(text@),
            StateFile::Unreadable(cause) => StateFileView::Unreadable(cause@),
        }
    }
}

/// The order to replace the whole of a file, atomically.
#[derive(Clone, Debug, PartialEq, Eq)]
pub struct FileWrite {
    /// The file to replace.
    pub path: String,
    /// Its new contents.
    pub contents: String,
}

/// A `FileWrite` as a mathematical value.
pub struct FileWriteView {
    /// The file to replace.
    pub path: Seq<char>,
    /// Its new contents.
    pub contents: Seq<char>,
}

impl View for FileWrite {
    type V = FileWriteView;

    open spec fn view(&self) -> FileWriteView {
        FileWriteView { path: self.path@, contents: self.contents@ }
    }
}

/// The path of the file with the plain name `name` in the directory `base`:
/// the two with one `/` between them, unless `base` is empty or ends in one
/// already.
pub open spec fn file_in(base: Seq<char>, name: Seq<char>) -> Seq<char> {
    if base.len() == 0 || base.last() == '/' {
        base + name
    } else {
        base.push('/') + name
    }
}

/// The record that a reading of the state file gives: the default record
/// where the file is missing, and an error where it cannot be read, does not
/// parse, or holds a head identifier that is no string.
pub open spec fn loaded(path: Seq<char>, file: StateFileView) -> Result<OplogView, ErrorView> {
    match file {
        StateFileView::Missing => Ok(default_record()),
        StateFileView::Unreadable(cause) => Err(ErrorView::Io(cause)),
        StateFileView::Contents(text) => match parsed_document(text) {
            Ok(items) => match decoded(items) {
                Ok(record) => Ok(record),
                Err(cause) => Err(ErrorView::Parse { path, cause }),
            },
            Err(cause) => Err(ErrorView::Parse { path, cause }),
        },
    }
}

/// The file is there and its text is no TOML document.
pub open spec fn corrupt(file: StateFileView) -> bool {
    file matches StateFileView::Contents(text) && parsed_document(text) is Err
}

/// The error is a parse error that names `path`.
pub open spec fn parse_error_at(error: ErrorView, path: Seq<char>) -> bool {
    error matches ErrorView::Parse { path: named, .. } && named == path
}

/// A record with its time of the last write set to `now`.
pub open spec fn stamped(record: OplogView, now: nat) -> OplogView {
    OplogView { head_sha: record.head_sha, modified_at: now }
}

/// A record with its head identifier set to `sha`.
pub open spec fn with_head(record: OplogView, sha: Seq<char>) -> OplogView {
    OplogView { head_sha: Some(sha), modified_at: record.modified_at }
}

/// The write that persists a record as it stands.
pub open spec fn persisted(path: Seq<char>, record: OplogView) -> Result<FileWriteView, ErrorView> {
    match rendered_document(record_items(record)) {
        Ok(contents) => Ok(FileWriteView { path, contents }),
        Err(cause) => Err(ErrorView::Io(cause)),
    }
}

/// The write that persists a record at a reading of the clock: the record is
/// stamped with the reading; without a reading nothing is written.
pub open spec fn written(
    path: Seq<char>,
    record: OplogView,
    reading: Option<nat>,
) -> Result<FileWriteView, ErrorView> {
    match reading {
        Some(now) => persisted(path, stamped(record, now)),
        None => Err(ErrorView::Io(CLOCK_OUT_OF_RANGE@)),
    }
}

/// What setting the head to `sha` comes to, given what was found at the path
/// and a reading of the clock: the record found is given the new head and
/// written back; a failed reading of the file is handed on.
pub open spec fn head_set(
    path: Seq<char>,
    file: StateFileView,
    sha: Seq<char>,
    reading: Option<nat>,
) -> Result<FileWriteView, ErrorView> {
    match loaded(path, file) {
        Ok(record) => written(path, with_head(record, sha), reading),
        Err(error) => Err(error),
    }
}

/// The outcome of a reading as a mathematical value.
pub open spec fn record_view(outcome: Result<Oplog, Error>) -> Result<OplogView, ErrorView> {
    match outcome {
        Ok(record) => Ok(record@),
        Err(error) => Err(error@),
    }
}

/// The outcome of a write as a mathematical value.
pub open spec fn write_view(outcome: Result<FileWrite, Error>) -> Result<FileWriteView, ErrorView> {
    match outcome {
        Ok(write) => Ok(write@),
        Err(error) => Err(error@),
    }
}

/// A reading of the clock as a mathematical value.
pub open spec fn reading_view(reading: Option<Timestamp>) -> Option<nat> {
    match reading {
        Some(now) => Some(now@),
        None => None,
    }
}

/// Turns a record into the order to write it to `file_path`, as it stands.
///
/// Fails with `Error::Io` where the record cannot be rendered.
pub fn write(file_path: &str, oplog: &Oplog) -> (outcome: Result<FileWrite, Error>)
    ensures
        write_view(outcome) == persisted(file_path@, oplog@),
{
    let table = oplog.to_table();
    match render_document(&table) {
        Ok(contents) => Ok(FileWrite { path: file_path.to_owned(), contents }),
        Err(cause) => Err(Error::Io(cause)),
    }
}

/// Access to the state of the operations log of one repository.
#[derive(Clone, Debug, PartialEq, Eq)]
pub struct OplogHandle {
    /// The path to the file containing the oplog head state.
    file_path: String,
}

impl OplogHandle {
    /// The path of the state file.
    pub closed spec fn path(&self) -> Seq<char> {
        self.file_path@
    }

    /// The handle for the repository whose base directory is `base_path`.
    pub fn new(base_path: &str) -> (handle: OplogHandle)
        ensures
            handle.path() == file_in(base_path@, OPLOG_FILE_NAME@),
    {
        let length: usize = base_path.unicode_len();
        let mut file_path = base_path.to_owned();
        if length > 0 && base_path.get_char(length - 1) != '/' {
            proof {
                reveal_strlit("/");
            }
            file_path.append("/");
        }
        file_path.append(OPLOG_FILE_NAME);
        OplogHandle { file_path }
    }

    /// The path of the state file: where to look for it, and where to write it.
    pub fn file_path(&self) -> (path: &str)
        ensures
            path@ == self.path(),
    {
        self.file_path.as_str()
    }

    /// Makes a record of what was found at the path.
    pub fn read_file(&self, file: &StateFile) -> (outcome: Result<Oplog, Error>)
        ensures
            record_view(outcome) == loaded(self.path(), file@),
            file is Missing ==> (outcome matches Ok(record) && record@ == default_record()),
            corrupt(file@) ==> (outcome matches Err(error) && parse_error_at(error@, self.path())),
    {
        match file {
            StateFile::Missing => Ok(Oplog::default()),
            StateFile::Unreadable(cause) => Err(Error::Io(cause.clone())),
            StateFile::Contents(text) => {
                let decoding = match parse_document(text.as_str()) {
                    Ok(table) => Oplog::from_table(&table),
                    Err(cause) => Err(cause),
                };
                match decoding {
                    Ok(record) => Ok(record),
                    Err(cause) => Err(Error::Parse { path: self.file_path.clone(), cause }),
                }
            },
        }
    }

    /// Stamps a record with a reading of the clock and orders it written.
    ///
    /// Whatever time the record held is overwritten. Fails with `Error::Io`
    /// where there is no reading or the record cannot be rendered.
    pub fn write_file_at(
        &self,
        oplog: Oplog,
        reading: Option<Timestamp>,
    ) -> (outcome: Result<FileWrite, Error>)
        ensures
            write_view(outcome) == written(self.path(), oplog@, reading_view(reading)),
    {
        match reading {
            Some(now) => {
                let mut oplog = oplog;
                oplog.modified_at = now;
                write(self.file_path.as_str(), &oplog)
            },
            None => Err(Error::Io(CLOCK_OUT_OF_RANGE.to_owned())),
        }
    }

    /// Stamps a record with the present time and orders it written.
    ///
    /// The outcome is that of `write_file_at` at some reading of the clock.
    pub fn write_file(&self, oplog: Oplog) -> (outcome: Result<FileWrite, Error>)
        ensures
            exists|reading: Option<nat>|
                {
                    &&& reading matches Some(time) ==> time <= max_nanos()
                    &&& write_view(outcome) == #[trigger] written(self.path(), oplog@, reading)
                },
    {
        self.write_file_at(oplog, read_clock())
    }

    /// Sets the head to `sha` at a reading of the clock: orders the record
    /// found at the path written back with the new head and the reading as
    /// its time.
    ///
    /// Fails as `read_file` does on what was found, and otherwise as
    /// `write_file_at` does.
    pub fn set_oplog_head_at(
        &self,
        file: &StateFile,
        sha: String,
        reading: Option<Timestamp>,
    ) -> (outcome: Result<FileWrite, Error>)
        ensures
            write_view(outcome) == head_set(self.path(), file@, sha@, reading_view(reading)),
    {
        match self.read_file(file) {
            Ok(record) => {
                let mut oplog = record;
                oplog.head_sha = Some(sha);
                self.write_file_at(oplog, reading)
            },
            Err(error) => Err(error),
        }
    }

    /// Persists the oplog head for the repository: orders the record found
    /// at the path written back with `sha` as its head and the present time
    /// as its time.
    ///
    /// The outcome is that of `set_oplog_head_at` at some reading of the
    /// clock. Whether it fails on what was found does not depend on the clock.
    pub fn set_oplog_head(
        &self,
        file: &StateFile,
        sha: String,
    ) -> (outcome: Result<FileWrite, Error>)
        ensures
            exists|reading: Option<nat>|
                {
                    &&& reading matches Some(time) ==> time <= max_nanos()
                    &&& write_view(outcome) == #[trigger] head_set(
                        self.path(),
                        file@,
                        sha@,
                        reading,
                    )
                },
            loaded(self.path(), file@) matches Err(error) ==> (outcome matches Err(same) && same@
                == error),
    {
        self.set_oplog_head_at(file, sha, read_clock())
    }

    /// Gets the oplog head of the repository from what was found at the
    /// path: `None` where no head was ever recorded, as with a missing file.
    ///
    /// Fails as `read_file` does.
    pub fn get_oplog_head(&self, file: &StateFile) -> (outcome: Result<Option<String>, Error>)
        ensures
            match outcome {
                Ok(Some(sha)) => loaded(self.path(), file@) matches Ok(record) && record.head_sha
                    == Some(sha@),
                Ok(None) => loaded(self.path(), file@) matches Ok(record)
                    && record.head_sha.is_none(),
                Err(error) => loaded(self.path(), file@) matches Err(cause) && cause == error@,
            },
            file is Missing ==> outcome matches Ok(None),
            corrupt(file@) ==> (outcome matches Err(error) && parse_error_at(error@, self.path())),
    {
        match self.read_file(file) {
            Ok(oplog) => Ok(oplog.head_sha),
            Err(error) => Err(error),
        }
    }

    /// Gets the time when the state was last written from what was found at
    /// the path: the epoch where it never was, as with a missing file, or
    /// where the document holds no readable time.
    ///
    /// Fails as `read_file` does.
    pub fn get_modified_at(&self, file: &StateFile) -> (outcome: Result<Timestamp, Error>)
        ensures
            match outcome {
                Ok(time) => loaded(self.path(), file@) matches Ok(record) && record.modified_at
                    == time@,
                Err(error) => loaded(self.path(), file@) matches Err(cause) && cause == error@,
            },
            file is Missing ==> (outcome matches Ok(time) && time@ == 0),
            corrupt(file@) ==> (outcome matches Err(error) && parse_error_at(error@, self.path())),
    {
        match self.read_file(file) {
            Ok(oplog) => Ok(oplog.modified_at),
            Err(error) => Err(error),
        }
    }
}

/// Round trip of the head: the document that `set_oplog_head` lays out for
/// an identifier is read back with that identifier as its head, whatever
/// record was found before and whatever the clock read.
pub proof fn lemma_head_round_trip(found: OplogView, sha: Seq<char>, now: nat)
    requires
        now <= max_nanos(),
    ensures
        decoded(record_items(stamped(with_head(found, sha), now))) matches Ok(read)
            && read.head_sha == Some(sha) && read.modified_at == now,
{
    lemma_record_round_trip(stamped(with_head(found, sha), now));
}

/// The time that `set_oplog_head` lays out is the clock's reading: read
/// back, it is not before any time that the reading is not before.
pub proof fn lemma_time_follows_clock(found: OplogView, sha: Seq<char>, earlier: nat, now: nat)
    requires
        earlier <= now <= max_nanos(),
    ensures
        decoded(record_items(stamped(with_head(found, sha), now))) matches Ok(record)
            && record.modified_at >= earlier,
{
    lemma_head_round_trip(found, sha, now);
}

/// Setting the same head twice: the document of the first write is read back
/// with that head, and so is the document of the second, whose time is the
/// second reading of the clock.
pub proof fn lemma_same_head_twice(found: OplogView, sha: Seq<char>, first: nat, second: nat)
    requires
        first <= max_nanos(),
        second <= max_nanos(),
    ensures
        ({
            let once = stamped(with_head(found, sha), first);
            let twice = stamped(with_head(once, sha), second);
            &&& decoded(record_items(once)) matches Ok(read) && read == once
            &&& decoded(record_items(twice)) matches Ok(read) && read.head_sha == Some(sha)
                && read.modified_at == second
        }),
{
    lemma_head_round_trip(found, sha, first);
    lemma_head_round_trip(stamped(with_head(found, sha), first), sha, second);
}

/// Set, then get, through the file: where setting the head to `sha` orders a
/// write, and the text written parses back into the entries it was rendered
/// from, a reading of the written file gives `sha` as the head and the
/// clock's reading as the time.
///
/// That a rendered text parses back into its entries is up to the TOML
/// codec; nothing here proves it.
pub proof fn lemma_set_then_get(
    path: Seq<char>,
    file: StateFileView,
    sha: Seq<char>,
    now: nat,
    found: OplogView,
    write: FileWriteView,
)
    requires
        now <= max_nanos(),
        loaded(path, file) matches Ok(record) && record == found,
        head_set(path, file, sha, Some(now)) matches Ok(order) && order == write,
        parsed_document(write.contents) matches Ok(items) && items == record_items(
            stamped(with_head(found, sha), now),
        ),
    ensures
        loaded(path, StateFileView::Contents(write.contents)) matches Ok(read) && read.head_sha
            == Some(sha) && read.modified_at == now,
{
    lemma_head_round_trip(found, sha, now);
}

} // verus!
