//! The persisted record and its TOML schema.

use crate::document::{
    integer_value, string_value, table_get, table_items, table_value, value_item, Entries, Item,
};
use crate::timestamp::{max_nanos, unix_epoch, Timestamp, NANOS_PER_SEC};
use vstd::prelude::*;

verus! {

/// Key of the head identifier. A document without it records no head.
pub const HEAD_SHA_KEY: &'static str = "head_sha";

/// Key of the time of the last write.
pub const MODIFIED_AT_KEY: &'static str = "modified_at";

/// Key, inside the time of the last write, of the whole seconds since the epoch.
pub const SECS_KEY: &'static str = "secs_since_epoch";

/// Key, inside the time of the last write, of the nanoseconds beyond them.
pub const NANOS_KEY: &'static str = "nanos_since_epoch";

/// Why a document is turned down whose head identifier is no string.
pub const HEAD_SHA_NOT_A_STRING: &'static str = "invalid type for `head_sha`: expected a string";

/// The head of the operations log, as persisted.
#[derive(Clone, Debug, PartialEq, Eq)]
pub struct Oplog {
    /// Identifier of the latest entry of the log; `None` until one is recorded.
    pub head_sha: Option<String>,
    /// When the record was last written; the epoch if it never was.
    pub modified_at: Timestamp,
}

/// The record as a mathematical value.
pub struct OplogView {
    /// The characters of the head identifier, where there is one.
    pub head_sha: Option<Seq<char>>,
    /// The nanoseconds from the epoch to the last write.
    pub modified_at: nat,
}

impl View for Oplog {
    type V = OplogView;

    open spec fn view(&self) -> OplogView {
        OplogView {
            head_sha: match self.head_sha {
                Some(sha) => Some(sha@),
                None => None,
            },
            modified_at: self.modified_at@,
        }
    }
}

/// The record of a repository whose state was never written.
pub open spec fn default_record() -> OplogView {
    OplogView { head_sha: None, modified_at: 0 }
}

impl Default for Oplog {
    fn default() -> (record: Oplog)
        ensures
            record@ == default_record(),
    {
        Oplog { head_sha: None, modified_at: unix_epoch() }
    }
}

/// The time, in nanoseconds since the epoch, that a pair of items gives as
/// seconds and nanoseconds: both are integers, neither is negative, the
/// nanoseconds fit in 32 bits and the time is one that a timestamp can hold.
pub open spec fn instant(secs: Item, nanos: Item) -> Option<nat> {
    match (secs, nanos) {
        (Item::Integer(s), Item::Integer(n)) => if 0 <= s && 0 <= n <= u32::MAX && s
            * NANOS_PER_SEC + n <= max_nanos() {
            Some((s * NANOS_PER_SEC + n) as nat)
        } else {
            None
        },
        _ => None,
    }
}

/// The time that an item spells out, if it does so in the present schema: a
/// table with the keys `SECS_KEY` and `NANOS_KEY` and no other, or an array
/// that starts with the seconds and the nanoseconds.
pub open spec fn timestamp_of(item: Item) -> Option<nat> {
    match item {
        Item::Table(fields) => if fields.dom() =~= set![SECS_KEY@, NANOS_KEY@] {
            instant(fields[SECS_KEY@], fields[NANOS_KEY@])
        } else {
            None
        },
        Item::Array(elements) => if elements.len() >= 2 {
            instant(elements[0], elements[1])
        } else {
            None
        },
        _ => None,
    }
}

/// The time of the last write that an item stands for: the time it spells
/// out, and the epoch where it spells out none, as the bare integer of older
/// documents does.
pub open spec fn timestamp_or_epoch(item: Item) -> nat {
    match timestamp_of(item) {
        Some(time) => time,
        None => 0,
    }
}

/// The head identifier that a document's top-level entries give: none where
/// the key is missing, and an error where it holds anything but a string.
pub open spec fn head_of(items: Entries) -> Result<Option<Seq<char>>, Seq<char>> {
    if !items.contains_key(HEAD_SHA_KEY@) {
        Ok(None)
    } else {
        match items[HEAD_SHA_KEY@] {
            Item::Str(sha) => Ok(Some(sha)),
            _ => Err(HEAD_SHA_NOT_A_STRING@),
        }
    }
}

/// The time of the last write that a document's top-level entries give: the
/// epoch where the key is missing.
pub open spec fn time_of(items: Entries) -> nat {
    if items.contains_key(MODIFIED_AT_KEY@) {
        timestamp_or_epoch(items[MODIFIED_AT_KEY@])
    } else {
        0
    }
}

/// The record that a document's top-level entries stand for, or why they
/// stand for none.
///
/// Only a head identifier that is no string is turned down. Keys other than
/// the two of the schema are passed over.
pub open spec fn decoded(items: Entries) -> Result<OplogView, Seq<char>> {
    match head_of(items) {
        Ok(head_sha) => Ok(OplogView { head_sha, modified_at: time_of(items) }),
        Err(cause) => Err(cause),
    }
}

/// The top-level entries of the document that holds a record.
pub open spec fn record_items(record: OplogView) -> Entries {
    let time = map![
        SECS_KEY@ => Item::Integer((record.modified_at / (NANOS_PER_SEC as nat)) as i64),
        NANOS_KEY@ => Item::Integer((record.modified_at % (NANOS_PER_SEC as nat)) as i64),
    ];
    let items = map![MODIFIED_AT_KEY@ => Item::Table(time)];
    match record.head_sha {
        Some(sha) => items.insert(HEAD_SHA_KEY@, Item::Str(sha)),
        None => items,
    }
}

/// The outcome of a decoding as a mathematical value.
pub open spec fn decoding_view(outcome: Result<Oplog, String>) -> Result<OplogView, Seq<char>> {
    match outcome {
        Ok(record) => Ok(record@),
        Err(message) => Err(message@),
    }
}

/// Keys that stand side by side in a table of the schema differ.
pub proof fn lemma_keys_differ()
    ensures
        HEAD_SHA_KEY@ != MODIFIED_AT_KEY@,
        SECS_KEY@ != NANOS_KEY@,
{
    reveal_strlit("head_sha");
    reveal_strlit("modified_at");
    reveal_strlit("secs_since_epoch");
    reveal_strlit("nanos_since_epoch");
    assert(HEAD_SHA_KEY@.len() == 8 && MODIFIED_AT_KEY@.len() == 11);
    assert(SECS_KEY@.len() == 16 && NANOS_KEY@.len() == 17);
}

/// A table with exactly two keys, both known, has no key but these.
proof fn lemma_two_keys(fields: Entries, first: Seq<char>, second: Seq<char>)
    requires
        fields.dom().finite(),
        fields.len() == 2,
        first != second,
        fields.contains_key(first),
        fields.contains_key(second),
    ensures
        fields.dom() =~= set![first, second],
{
    let rest = fields.dom().remove(first).remove(second);
    assert forall|key: Seq<char>| fields.dom().contains(key) implies key == first || key
        == second by {
        if key != first && key != second {
            assert(rest.contains(key));
        }
    }
}

/// Reads a pair of values as seconds and nanoseconds since the epoch.
fn instant_of(secs: &toml::Value, nanos: &toml::Value) -> (time: Option<Timestamp>)
    ensures
        match time {
            Some(t) => instant(value_item(*secs), value_item(*nanos)) == Some(t@),
            None => instant(value_item(*secs), value_item(*nanos)).is_none(),
        },
{
    match (secs.as_integer(), nanos.as_integer()) {
        (Some(s), Some(n)) => {
            if s >= 0 && n >= 0 && n <= 0xffff_ffff {
                Timestamp::new(s as u64, n as u32)
            } else {
                None
            }
        },
        _ => None,
    }
}

/// Reads a value as a time in the present schema.
///
/// `None` for every other form, among them the bare integer that older
/// documents hold.
pub fn decode_timestamp(value: &toml::Value) -> (time: Option<Timestamp>)
    ensures
        match time {
            Some(t) => timestamp_of(value_item(*value)) == Some(t@),
            None => timestamp_of(value_item(*value)).is_none(),
        },
{
    if let Some(fields) = value.as_table() {
        let count: usize = fields.len();
        let secs = table_get(fields, SECS_KEY);
        let nanos = table_get(fields, NANOS_KEY);
        proof {
            lemma_keys_differ();
            let items = table_items(*fields);
            if count == 2 && secs.is_some() && nanos.is_some() {
                lemma_two_keys(items, SECS_KEY@, NANOS_KEY@);
            }
        }
        match (secs, nanos) {
            (Some(s), Some(n)) => if count == 2 {
                instant_of(s, n)
            } else {
                None
            },
            _ => None,
        }
    } else if let Some(elements) = value.as_array() {
        if elements.len() >= 2 {
            instant_of(&elements[0], &elements[1])
        } else {
            None
        }
    } else {
        None
    }
}

/// Reads a value as the time of the last write and never fails: a value
/// that does not hold a time in the present schema gives the epoch.
pub fn unfailing_system_time_deserialize(value: &toml::Value) -> (time: Timestamp)
    ensures
        time@ == timestamp_or_epoch(value_item(*value)),
{
    match decode_timestamp(value) {
        Some(time) => time,
        None => unix_epoch(),
    }
}

impl Oplog {
    /// Reads the record out of a parsed document.
    ///
    /// Fails, with `HEAD_SHA_NOT_A_STRING`, only where the head identifier is
    /// present and no string. A missing identifier is `None`; a missing or
    /// unreadable time of the last write is the epoch.
    pub fn from_table(table: &toml::Table) -> (outcome: Result<Oplog, String>)
        ensures
            decoding_view(outcome) == decoded(table_items(*table)),
    {
        let head_sha = match table_get(table, HEAD_SHA_KEY) {
            Some(value) => match value.as_str() {
                Some(sha) => Some(sha.to_owned()),
                None => {
                    return Err(HEAD_SHA_NOT_A_STRING.to_owned());
                },
            },
            None => None,
        };
        let modified_at = match table_get(table, MODIFIED_AT_KEY) {
            Some(value) => unfailing_system_time_deserialize(value),
            None => unix_epoch(),
        };
        Ok(Oplog { head_sha, modified_at })
    }

    /// Lays the record out as a document: the head identifier, where there
    /// is one, and the time of the last write as seconds and nanoseconds.
    pub fn to_table(&self) -> (table: toml::Table)
        ensures
            table_items(table) == record_items(self@),
    {
        let secs: u64 = self.modified_at.secs_since_epoch();
        let nanos: u32 = self.modified_at.nanos_since_epoch();
        let mut time = toml::Table::new();
        time.insert(SECS_KEY.to_owned(), integer_value(secs as i64));
        time.insert(NANOS_KEY.to_owned(), integer_value(nanos as i64));
        let mut table = toml::Table::new();
        table.insert(MODIFIED_AT_KEY.to_owned(), table_value(time));
        match &self.head_sha {
            Some(sha) => {
                table.insert(HEAD_SHA_KEY.to_owned(), string_value(sha.clone()));
            },
            None => {},
        }
        table
    }
}

/// Round trip: the document that holds a record is read back as that very
/// record, whatever its head and its time.
pub proof fn lemma_record_round_trip(record: OplogView)
    requires
        record.modified_at <= max_nanos(),
    ensures
        decoded(record_items(record)) matches Ok(read) && read == record,
{
    lemma_keys_differ();
}

/// Older documents: where the time of the last write is a bare integer and
/// the head, if there is one, is a string, the document is read: its time is
/// the epoch, its head the one it gives.
pub proof fn lemma_bare_integer_reads_as_epoch(items: Entries, seconds: i64)
    requires
        items.contains_key(MODIFIED_AT_KEY@),
        items[MODIFIED_AT_KEY@] == Item::Integer(seconds),
        items.contains_key(HEAD_SHA_KEY@) ==> items[HEAD_SHA_KEY@] is Str,
    ensures
        decoded(items) matches Ok(record) && record.modified_at == 0 && record.head_sha == (
        if items.contains_key(HEAD_SHA_KEY@) {
            Some(items[HEAD_SHA_KEY@]->Str_0)
        } else {
            None
        }),
{
}

} // verus!
