//! Durable state of an operations log: the identifier of its latest entry and
//! the time of the last update, kept as one small TOML document per repository.
//!
//! The crate holds the record, its codec and the read-modify-write protocol.
//! It never touches the file system: a caller hands over what it found at the
//! state file's path and gets back the text to write there.

pub mod clock;
pub mod document;
pub mod record;
pub mod state;
pub mod timestamp;

pub use record::Oplog;
pub use state::{Error, FileWrite, OplogHandle, StateFile, OPLOG_FILE_NAME};
pub use timestamp::{unix_epoch, Timestamp};
