use mls_session::error::{ErrorKind, MlsError};
use mls_session::persist::{
    is_record_file, record_file_name, saved_group_ids, CredentialSummary, GroupRecord, StoredEntry,
};

fn record(id: &str, epoch: u64) -> GroupRecord {
    GroupRecord {
        group_id: id.to_string(),
        epoch,
        group_info_data: vec![1, 2, 3],
        credential: CredentialSummary {
            credential_type: "Basic".to_string(),
            identity: b"default_user".to_vec(),
            signature_key: vec![9; 32],
        },
    }
}

#[test]
fn record_file_name_appends_the_extension() {
    assert_eq!(record_file_name("00ff"), "00ff.json");
    assert_eq!(record_file_name(""), ".json");
}

#[test]
fn record_files_are_told_by_their_extension() {
    assert!(is_record_file("00ff.json"));
    assert!(is_record_file("a.json"));
    assert!(is_record_file("a.b.json"));
    assert!(is_record_file("..json"));
    assert!(!is_record_file(".json"));
    assert!(!is_record_file("json"));
    assert!(!is_record_file(""));
    assert!(!is_record_file("a.JSON"));
    assert!(!is_record_file("a.json.bak"));
    assert!(!is_record_file("a.jso"));
    assert!(!is_record_file("ajson"));
    assert!(is_record_file("\u{e9}.json"));
}

#[test]
fn listing_keeps_the_order_and_passes_over_other_files() {
    let entries = vec![
        StoredEntry::Record(record("bb", 1)),
        StoredEntry::Other,
        StoredEntry::Record(record("aa", 7)),
        StoredEntry::Other,
    ];
    assert_eq!(saved_group_ids(entries).unwrap(), vec!["bb".to_string(), "aa".to_string()]);
    assert_eq!(saved_group_ids(Vec::new()).unwrap(), Vec::<String>::new());
}

#[test]
fn listing_ends_at_the_first_fault() {
    let entries = vec![
        StoredEntry::Record(record("aa", 0)),
        StoredEntry::ParseFault("expected value at line 1".to_string()),
        StoredEntry::ReadFault("denied".to_string()),
    ];
    let e = saved_group_ids(entries).unwrap_err();
    assert_eq!(
        e,
        MlsError::SerializationError {
            msg: "Failed to deserialize group state: expected value at line 1".to_string()
        }
    );
    let e = saved_group_ids(vec![StoredEntry::ReadFault("denied".to_string())]).unwrap_err();
    assert_eq!(e.kind(), ErrorKind::Io);
    assert_eq!(e.detail(), "Failed to read group file: denied");
    let e = saved_group_ids(vec![
        StoredEntry::Other,
        StoredEntry::EntryFault("gone".to_string()),
        StoredEntry::Record(record("aa", 0)),
    ])
    .unwrap_err();
    assert_eq!(e, MlsError::IoError { msg: "Failed to read directory entry: gone".to_string() });
}
