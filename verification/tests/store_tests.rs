use modstore::errors::{DbError, FileError, UploadError};
use modstore::metadata::PackageMetadata;
use modstore::store::{fail_open_exists, MetadataStore};

fn record(id: &str, title: &str, version: &str) -> PackageMetadata {
    PackageMetadata {
        id: id.to_string(),
        title: title.to_string(),
        version: version.to_string(),
        thumbnail: String::new(),
        file_path: format!("mods/{}.gz", id),
    }
}

#[test]
fn upsert_then_lookup() {
    let mut store = MetadataStore::open_in_memory().unwrap();
    store.upsert(&record("m1", "T", "1")).unwrap();
    assert!(store.contains_id_or_false(&"m1".to_string()));
    let path = store.file_path_of(&"m1".to_string()).unwrap();
    assert_eq!(path, "mods/m1.gz");
}

#[test]
fn upsert_twice_identical_keeps_one_row() {
    // Idempotence: the same record twice leaves exactly one row with the
    // last upload's fields.
    let mut store = MetadataStore::open_in_memory().unwrap();
    store.upsert(&record("m1", "T", "1")).unwrap();
    store.upsert(&record("m1", "T", "1")).unwrap();
    let rows = store.list().unwrap();
    assert_eq!(rows.len(), 1);
    assert_eq!(rows[0].id, "m1");
    assert_eq!(rows[0].title, "T");
    assert_eq!(rows[0].version, "1");
}

#[test]
fn upsert_overwrites_all_fields() {
    // A later upload that omits a field blanks it: full overwrite, not merge.
    let mut store = MetadataStore::open_in_memory().unwrap();
    store.upsert(&record("m1", "T1", "1.0")).unwrap();
    let partial = PackageMetadata {
        id: "m1".to_string(),
        title: "T2".to_string(),
        version: String::new(),
        thumbnail: String::new(),
        file_path: String::new(),
    };
    store.upsert(&partial).unwrap();
    let rows = store.list().unwrap();
    assert_eq!(rows.len(), 1);
    assert_eq!(rows[0].title, "T2");
    assert_eq!(rows[0].version, "");
}

#[test]
fn list_holds_one_row_per_distinct_id() {
    let mut store = MetadataStore::open_in_memory().unwrap();
    store.upsert(&record("a", "TA", "1")).unwrap();
    store.upsert(&record("b", "TB", "2")).unwrap();
    store.upsert(&record("c", "TC", "3")).unwrap();
    let mut rows = store.list().unwrap();
    assert_eq!(rows.len(), 3);
    rows.sort_by(|x, y| x.id.cmp(&y.id));
    assert_eq!(rows[0].id, "a");
    assert_eq!(rows[0].title, "TA");
    assert_eq!(rows[1].id, "b");
    assert_eq!(rows[1].version, "2");
    assert_eq!(rows[2].id, "c");
    assert_eq!(rows[2].title, "TC");
}

#[test]
fn two_uploads_distinct_ids_lose_nothing() {
    // Serialized commits for ids "a" and "b": both rows present afterwards
    // with their own field values.
    let mut store = MetadataStore::open_in_memory().unwrap();
    store.upsert(&record("a", "first", "1")).unwrap();
    store.upsert(&record("b", "second", "2")).unwrap();
    assert!(store.contains_id_or_false(&"a".to_string()));
    assert!(store.contains_id_or_false(&"b".to_string()));
    assert_eq!(store.file_path_of(&"a".to_string()).unwrap(), "mods/a.gz");
    assert_eq!(store.file_path_of(&"b".to_string()).unwrap(), "mods/b.gz");
}

#[test]
fn missing_id_lookup_fails() {
    // Downloading an id that was never uploaded yields an error, never bytes.
    let store = MetadataStore::open_in_memory().unwrap();
    assert!(store.file_path_of(&"ghost".to_string()).is_err());
    assert!(!store.contains_id_or_false(&"ghost".to_string()));
}

#[test]
fn contains_id_reports_presence() {
    let mut store = MetadataStore::open_in_memory().unwrap();
    assert_eq!(store.contains_id(&"m1".to_string()).unwrap(), false);
    store.upsert(&record("m1", "T", "1")).unwrap();
    assert_eq!(store.contains_id(&"m1".to_string()).unwrap(), true);
}

#[test]
fn ensure_schema_is_idempotent() {
    let mut store = MetadataStore::open_in_memory().unwrap();
    store.upsert(&record("m1", "T", "1")).unwrap();
    store.ensure_schema().unwrap();
    let rows = store.list().unwrap();
    assert_eq!(rows.len(), 1);
    assert_eq!(rows[0].id, "m1");
}

#[test]
fn store_over_caller_supplied_connection() {
    let conn = rusqlite::Connection::open_in_memory().unwrap();
    let mut store = MetadataStore::from_connection(conn);
    // Before the schema exists every operation fails; after ensure_schema the
    // store works.
    assert!(store.list().is_err());
    store.ensure_schema().unwrap();
    assert_eq!(store.list().unwrap().len(), 0);
    store.upsert(&record("m1", "T", "1")).unwrap();
    assert_eq!(store.list().unwrap().len(), 1);
}

#[test]
fn fail_open_reads_only_a_true_answer_as_present() {
    assert_eq!(fail_open_exists(Ok(true)), true);
    assert_eq!(fail_open_exists(Ok(false)), false);
    assert_eq!(fail_open_exists(Err(DbError::new("probe failed".to_string()))), false);
}

#[test]
fn error_kinds_carry_their_cause() {
    let u = UploadError::new("part truncated".to_string());
    assert_eq!(u.details, "part truncated");
    let f = FileError::new("disk full".to_string());
    assert_eq!(f.details, "disk full");
    let store = MetadataStore::open_in_memory().unwrap();
    let e = store.file_path_of(&"ghost".to_string()).unwrap_err();
    assert!(!e.details.is_empty());
}
