use docstore::{Database, DocumentId, DocumentRecord, StoreError, Timestamp};
use sha2::Digest;

fn open(name: &str) -> Database {
    Database::new(&format!("/tmp/docstore_tests/{}", name)).unwrap()
}

fn at(rfc3339: &str) -> Timestamp {
    let t = chrono::DateTime::parse_from_rfc3339(rfc3339).unwrap();
    Timestamp::new(t.timestamp(), t.timestamp_subsec_nanos()).unwrap()
}

fn record(content: &str, created: Timestamp) -> DocumentRecord {
    DocumentRecord { content: content.to_string(), created }
}

#[test]
fn concrete_scenario() {
    let mut db = open("concrete_scenario");
    let created = at("2024-01-01T00:00:00Z");
    assert_eq!(created, Timestamp { secs: 1704067200, nanos: 0 });
    let doc = record("Calculus I, Physics II", created);
    let id = db.insert_document(&doc).unwrap();
    let expected = hex::encode(sha2::Sha256::digest("Calculus I, Physics II".as_bytes()));
    assert_eq!(id.to_hex(), expected);
    assert_eq!(db.get_document(&id).unwrap(), Some(doc));
    let unrelated = DocumentId([0x5a; 32]);
    assert!(!db.contains_document(&unrelated).unwrap());
    assert_eq!(db.get_document(&unrelated).unwrap(), None);
}

#[test]
fn identifier_is_deterministic() {
    let mut db = open("identifier_is_deterministic");
    let a = db.insert_document(&record("same text", at("2024-01-01T00:00:00Z"))).unwrap();
    let b = db.insert_document(&record("same text", at("2025-06-30T12:34:56Z"))).unwrap();
    assert_eq!(a, b);
    assert_eq!(Database::calculate_document_id("same text"), a);
}

#[test]
fn identifier_depends_on_content() {
    let a = Database::calculate_document_id("Calculus I");
    let b = Database::calculate_document_id("Calculus II");
    assert_ne!(a, b);
    assert_ne!(Database::calculate_document_id(""), Database::calculate_document_id(" "));
}

#[test]
fn empty_content_digest() {
    let id = Database::calculate_document_id("");
    assert_eq!(
        id.to_hex(),
        "e3b0c44298fc1c149afbf4c8996fb92427ae41e4649b934ca495991b7852b855"
    );
}

#[test]
fn round_trip_keeps_content_and_time() {
    let mut db = open("round_trip_keeps_content_and_time");
    let created = Timestamp { secs: 1_700_000_000, nanos: 123_456_789 };
    let doc = record("héllo, wörld\nline two", created);
    let id = db.insert_document(&doc).unwrap();
    let got = db.get_document(&id).unwrap().unwrap();
    assert_eq!(got.content, "héllo, wörld\nline two");
    assert_eq!(got.created, created);
}

#[test]
fn round_trip_empty_content() {
    let mut db = open("round_trip_empty_content");
    let doc = record("", Timestamp { secs: -5, nanos: 0 });
    let id = db.insert_document(&doc).unwrap();
    assert_eq!(db.get_document(&id).unwrap(), Some(doc));
}

#[test]
fn reinsert_overwrites_with_latest_record() {
    let mut db = open("reinsert_overwrites_with_latest_record");
    let first = record("twice", at("2024-01-01T00:00:00Z"));
    let second = record("twice", at("2024-02-01T00:00:00Z"));
    let a = db.insert_document(&first).unwrap();
    assert_eq!(db.get_document(&a).unwrap(), Some(first));
    let b = db.insert_document(&second).unwrap();
    assert_eq!(a, b);
    assert_eq!(db.get_document(&b).unwrap(), Some(second));
}

#[test]
fn remove_then_absent() {
    let mut db = open("remove_then_absent");
    let doc = record("to be removed", at("2024-03-01T00:00:00Z"));
    let id = db.insert_document(&doc).unwrap();
    assert!(db.contains_document(&id).unwrap());
    assert_eq!(db.remove_document(&id).unwrap(), Some(doc));
    assert!(!db.contains_document(&id).unwrap());
    assert_eq!(db.get_document(&id).unwrap(), None);
    assert_eq!(db.remove_document(&id).unwrap(), None);
}

#[test]
fn remove_absent_is_none() {
    let mut db = open("remove_absent_is_none");
    let id = DocumentId([0xa5; 32]);
    assert_eq!(db.remove_document(&id).unwrap(), None);
    assert!(!db.contains_document(&id).unwrap());
}

#[test]
fn undecodable_value_is_codec_error() {
    let path = "/tmp/docstore_tests/undecodable_value_is_codec_error";
    let key = [7u8; 32];
    {
        let raw = sled::Config::default()
            .use_compression(true)
            .compression_factor(10)
            .path(path)
            .open()
            .unwrap();
        let tree = raw.open_tree("documents").unwrap();
        tree.insert(&key, vec![1u8]).unwrap();
        tree.flush().unwrap();
    }
    let mut db = Database::new(path).unwrap();
    let id = DocumentId(key);
    assert!(db.contains_document(&id).unwrap());
    assert!(matches!(db.get_document(&id), Err(StoreError::Bincode(_))));
    assert!(matches!(db.remove_document(&id), Err(StoreError::Bincode(_))));
    assert!(db.contains_document(&id).unwrap());
    assert!(matches!(db.get_document(&id), Err(StoreError::Bincode(_))));
}

fn plant_garbage(path: &str, key: &[u8]) {
    let raw = sled::Config::default()
        .use_compression(true)
        .compression_factor(10)
        .path(path)
        .open()
        .unwrap();
    let tree = raw.open_tree("documents").unwrap();
    tree.insert(key, vec![0xffu8, 0x01]).unwrap();
    tree.flush().unwrap();
}

#[test]
fn insert_over_undecodable_value_succeeds() {
    let path = "/tmp/docstore_tests/insert_over_undecodable_value_succeeds";
    let id = Database::calculate_document_id("overwrite me");
    plant_garbage(path, &id.0);
    let mut db = Database::new(path).unwrap();
    assert!(matches!(db.get_document(&id), Err(StoreError::Bincode(_))));
    let doc = record("overwrite me", Timestamp { secs: 1, nanos: 2 });
    assert_eq!(db.insert_document(&doc).unwrap(), id);
    assert_eq!(db.get_document(&id).unwrap(), Some(doc));
}

#[test]
fn timestamp_new_checks_nanos() {
    assert_eq!(Timestamp::new(5, 999_999_999), Some(Timestamp { secs: 5, nanos: 999_999_999 }));
    assert_eq!(Timestamp::new(-1, 1_999_999_999), Some(Timestamp { secs: -1, nanos: 1_999_999_999 }));
    assert_eq!(Timestamp::new(5, 2_000_000_000), None);
    assert_eq!(Timestamp::new(0, u32::MAX), None);
}

#[test]
fn hex_round_trip() {
    let id = DocumentId([0x01, 0xab, 0xff, 0x00, 0x10, 0x9c, 0x7e, 0x80, 0, 0, 0, 0, 0, 0, 0, 0, 0, 0, 0, 0, 0, 0, 0, 0, 0, 0, 0, 0, 0, 0, 0, 0x42]);
    let text = id.to_hex();
    assert_eq!(&text[..16], "01abff00109c7e80");
    assert_eq!(&text[62..], "42");
    assert_eq!(DocumentId::from_hex(&text), Some(id));
    assert_eq!(DocumentId::from_hex(&text.to_uppercase()), Some(id));
}

#[test]
fn hex_rejects_bad_text() {
    assert_eq!(DocumentId::from_hex(""), None);
    assert_eq!(DocumentId::from_hex("abcd"), None);
    assert_eq!(DocumentId::from_hex(&"0".repeat(63)), None);
    assert_eq!(DocumentId::from_hex(&"0".repeat(66)), None);
    assert_eq!(DocumentId::from_hex(&format!("{}g", "0".repeat(63))), None);
    assert_eq!(DocumentId::from_hex(&"0".repeat(64)), Some(DocumentId([0; 32])));
}

#[test]
fn as_ref_gives_the_bytes() {
    let id = DocumentId([3u8; 32]);
    let bytes: &[u8; 32] = id.as_ref();
    assert_eq!(bytes, &[3u8; 32]);
}

#[test]
fn prompt_wraps_report_and_fields() {
    let p = docstore::prompt::recommendation_prompt("REPORT", "Math", "North", "");
    assert!(p.starts_with("```what if report\n\nREPORT\n```\n\nGiven the above report."));
    assert!(p.contains("{user_message: \"message to the user"));
    assert!(p.ends_with(
        "student's major: Math, campus: North, and an additional query from the user: \"\". That may be blank."
    ));
}
