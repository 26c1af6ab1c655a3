use oplog_state::record::{
    decode_timestamp, unfailing_system_time_deserialize, HEAD_SHA_KEY, HEAD_SHA_NOT_A_STRING,
    MODIFIED_AT_KEY, NANOS_KEY, SECS_KEY,
};
use oplog_state::{unix_epoch, Oplog, Timestamp};
use serde::Deserialize;

fn table(text: &str) -> toml::Table {
    text.parse::<toml::Table>().unwrap()
}

fn value(text: &str) -> toml::Value {
    table(&format!("v = {}", text)).remove("v").unwrap()
}

fn parts(time: Timestamp) -> (u64, u32) {
    (time.secs_since_epoch(), time.nanos_since_epoch())
}

/// What serde makes of a TOML value read as a `SystemTime`.
fn time_by_serde(text: &str) -> Option<(u64, u32)> {
    let time = std::time::SystemTime::deserialize(toml::de::ValueDeserializer::new(text)).ok()?;
    let elapsed = time.duration_since(std::time::UNIX_EPOCH).ok()?;
    Some((elapsed.as_secs(), elapsed.subsec_nanos()))
}

#[test]
fn default_record_has_no_head_and_the_epoch() {
    let record = Oplog::default();
    assert_eq!(record.head_sha, None);
    assert_eq!(record.modified_at, unix_epoch());
}

#[test]
fn schema_keys_are_the_documented_ones() {
    assert_eq!(HEAD_SHA_KEY, "head_sha");
    assert_eq!(MODIFIED_AT_KEY, "modified_at");
    assert_eq!(SECS_KEY, "secs_since_epoch");
    assert_eq!(NANOS_KEY, "nanos_since_epoch");
}

#[test]
fn empty_document_is_the_default_record() {
    assert_eq!(Oplog::from_table(&table("")), Ok(Oplog::default()));
}

#[test]
fn head_is_read_and_missing_time_is_the_epoch() {
    let record = Oplog::from_table(&table("head_sha = \"abc123\"\n")).unwrap();
    assert_eq!(record.head_sha, Some("abc123".to_string()));
    assert_eq!(record.modified_at, unix_epoch());
}

#[test]
fn time_is_read_from_its_table() {
    let text = "[modified_at]\nsecs_since_epoch = 1700000000\nnanos_since_epoch = 42\n";
    let record = Oplog::from_table(&table(text)).unwrap();
    assert_eq!(record.head_sha, None);
    assert_eq!(parts(record.modified_at), (1_700_000_000, 42));
}

#[test]
fn time_is_read_from_an_inline_table_with_its_keys_in_any_order() {
    let text = "modified_at = { nanos_since_epoch = 7, secs_since_epoch = 5 }\nhead_sha = 'x'\n";
    let record = Oplog::from_table(&table(text)).unwrap();
    assert_eq!(record.head_sha, Some("x".to_string()));
    assert_eq!(parts(record.modified_at), (5, 7));
}

#[test]
fn bare_integer_time_reads_as_the_epoch() {
    let text = "head_sha = \"abc123\"\nmodified_at = 1700000000\n";
    let record = Oplog::from_table(&table(text)).unwrap();
    assert_eq!(record.head_sha, Some("abc123".to_string()));
    assert_eq!(record.modified_at, unix_epoch());

    let headless = Oplog::from_table(&table("modified_at = 0\n")).unwrap();
    assert_eq!(headless, Oplog::default());
}

/// What serde makes of a TOML value read as an optional string.
fn head_by_serde(text: &str) -> Option<Option<String>> {
    Option::<String>::deserialize(toml::de::ValueDeserializer::new(text)).ok()
}

#[test]
fn head_is_judged_as_serde_judges_it() {
    for text in [
        "\"abc\"",
        "''",
        "\"\"\"\nmulti\nline\"\"\"",
        "\"esc\\taped\"",
        "5",
        "-5",
        "1.5",
        "nan",
        "true",
        "[]",
        "['abc']",
        "{}",
        "{ sha = 'abc' }",
        "1979-05-27T07:32:00Z",
        "1979-05-27",
    ] {
        let read = Oplog::from_table(&table(&format!("head_sha = {}", text)));
        match head_by_serde(text) {
            Some(head) => assert_eq!(read.unwrap().head_sha, head, "{}", text),
            None => assert_eq!(read, Err(HEAD_SHA_NOT_A_STRING.to_string()), "{}", text),
        }
    }
}

#[test]
fn head_that_is_no_string_is_turned_down() {
    for text in [
        "head_sha = 5\n",
        "head_sha = true\n",
        "head_sha = 1.5\n",
        "head_sha = [\"abc\"]\n",
        "head_sha = { sha = \"abc\" }\n",
        "head_sha = 1979-05-27T07:32:00Z\n",
        "head_sha = 5\n[modified_at]\nsecs_since_epoch = 1\nnanos_since_epoch = 2\n",
    ] {
        assert_eq!(
            Oplog::from_table(&table(text)),
            Err(HEAD_SHA_NOT_A_STRING.to_string()),
            "{}",
            text
        );
    }
}

#[test]
fn other_keys_are_passed_over() {
    let text = "version = 3\nhead_sha = \"abc\"\n\n[extra]\nsecs_since_epoch = 9\n";
    let record = Oplog::from_table(&table(text)).unwrap();
    assert_eq!(record.head_sha, Some("abc".to_string()));
    assert_eq!(record.modified_at, unix_epoch());
}

#[test]
fn strict_time_decoding_by_form() {
    let some = |secs: u64, nanos: u32| Some((secs, nanos));
    let cases: Vec<(&str, Option<(u64, u32)>)> = vec![
        ("{ secs_since_epoch = 5, nanos_since_epoch = 7 }", some(5, 7)),
        ("{ nanos_since_epoch = 7, secs_since_epoch = 5 }", some(5, 7)),
        ("{ secs_since_epoch = 0, nanos_since_epoch = 0 }", some(0, 0)),
        ("{ secs_since_epoch = 5, nanos_since_epoch = 999999999 }", some(5, 999_999_999)),
        ("{ secs_since_epoch = 5, nanos_since_epoch = 1000000000 }", some(6, 0)),
        ("{ secs_since_epoch = 5, nanos_since_epoch = 4294967295 }", some(9, 294_967_295)),
        ("{ secs_since_epoch = 5, nanos_since_epoch = 4294967296 }", None),
        ("{ secs_since_epoch = 5, nanos_since_epoch = -1 }", None),
        ("{ secs_since_epoch = -1, nanos_since_epoch = 0 }", None),
        (
            "{ secs_since_epoch = 9223372036854775807, nanos_since_epoch = 999999999 }",
            some(9_223_372_036_854_775_807, 999_999_999),
        ),
        ("{ secs_since_epoch = 9223372036854775807, nanos_since_epoch = 1000000000 }", None),
        ("{ secs_since_epoch = 9223372036854775804, nanos_since_epoch = 4294967295 }", None),
        (
            "{ secs_since_epoch = 9223372036854775803, nanos_since_epoch = 4294967295 }",
            some(9_223_372_036_854_775_807, 294_967_295),
        ),
        ("{ secs_since_epoch = 5 }", None),
        ("{ nanos_since_epoch = 7 }", None),
        ("{ }", None),
        ("{ secs_since_epoch = 5, nanos_since_epoch = 7, zone = 'utc' }", None),
        ("{ extra = 1, secs_since_epoch = 5, nanos_since_epoch = 7 }", None),
        ("{ secs_since_epoch = 5.0, nanos_since_epoch = 7 }", None),
        ("{ secs_since_epoch = '5', nanos_since_epoch = 7 }", None),
        ("{ secs_since_epoch = 5, nanos_since_epoch = true }", None),
        ("{ secs = 5, nanos = 7 }", None),
        ("[5, 7]", some(5, 7)),
        ("[5, 7, 9]", some(5, 7)),
        ("[5, 7, 'more']", some(5, 7)),
        ("[5, 1000000000]", some(6, 0)),
        ("[9223372036854775807, 1000000000]", None),
        ("[5]", None),
        ("[]", None),
        ("[-5, 7]", None),
        ("[5, -7]", None),
        ("[5, 4294967296]", None),
        ("['5', 7]", None),
        ("[5.0, 7]", None),
        ("[[5, 7]]", None),
        ("[{ secs_since_epoch = 5, nanos_since_epoch = 7 }]", None),
        ("1700000000", None),
        ("0", None),
        ("-1", None),
        ("1.5", None),
        ("true", None),
        ("'2024-05-27'", None),
        ("1979-05-27T07:32:00Z", None),
        ("1979-05-27", None),
        ("07:32:00", None),
    ];
    for (text, expected) in cases {
        let decoded = decode_timestamp(&value(text)).map(parts);
        assert_eq!(decoded, expected, "{}", text);
        assert_eq!(decoded, time_by_serde(text), "{}", text);
        let lenient = unfailing_system_time_deserialize(&value(text));
        assert_eq!(parts(lenient), expected.unwrap_or((0, 0)), "{}", text);
    }
}

#[test]
fn array_of_tables_is_no_time() {
    let text = "[[modified_at]]\nsecs_since_epoch = 5\nnanos_since_epoch = 7\n";
    let record = Oplog::from_table(&table(text)).unwrap();
    assert_eq!(record.modified_at, unix_epoch());
}

#[test]
fn dotted_keys_spell_the_time_table() {
    let text = "modified_at.secs_since_epoch = 5\nmodified_at.nanos_since_epoch = 7\n";
    let record = Oplog::from_table(&table(text)).unwrap();
    assert_eq!(parts(record.modified_at), (5, 7));
}

#[test]
fn to_table_lays_out_head_and_time() {
    let record = Oplog {
        head_sha: Some("abc123".to_string()),
        modified_at: Timestamp::new(1_700_000_000, 42).unwrap(),
    };
    let mut time = toml::Table::new();
    time.insert("secs_since_epoch".to_string(), toml::Value::Integer(1_700_000_000));
    time.insert("nanos_since_epoch".to_string(), toml::Value::Integer(42));
    let mut expected = toml::Table::new();
    expected.insert("head_sha".to_string(), toml::Value::String("abc123".to_string()));
    expected.insert("modified_at".to_string(), toml::Value::Table(time));
    assert_eq!(record.to_table(), expected);
}

#[test]
fn to_table_leaves_out_a_missing_head() {
    let laid_out = Oplog::default().to_table();
    assert_eq!(laid_out.len(), 1);
    assert!(!laid_out.contains_key("head_sha"));
    let time = laid_out["modified_at"].as_table().unwrap();
    assert_eq!(time.len(), 2);
    assert_eq!(time["secs_since_epoch"].as_integer(), Some(0));
    assert_eq!(time["nanos_since_epoch"].as_integer(), Some(0));
}

#[test]
fn table_of_a_record_reads_back_as_the_record() {
    let heads = [None, Some(""), Some("abc123"), Some("with \"quotes\"\nand lines"), Some("ünï©ødé")];
    let times = [(0, 0), (1, 0), (0, 1), (1_700_000_000, 999_999_999), (i64::MAX as u64, 999_999_999)];
    for head in heads {
        for (secs, nanos) in times {
            let record = Oplog {
                head_sha: head.map(|sha| sha.to_string()),
                modified_at: Timestamp::new(secs, nanos).unwrap(),
            };
            assert_eq!(Oplog::from_table(&record.to_table()), Ok(record));
        }
    }
}
