use std::collections::HashMap;

use modstore::assemble::{assemble_parts, Part, UploadAssembler};
use modstore::store::MetadataStore;

fn part(name: &str, data: &[u8]) -> Part {
    Part { name: name.to_string(), data: data.to_vec() }
}

#[test]
fn round_trip_upload_download() {
    // Upload id "m1" with file bytes b, then download "m1": exactly b comes back.
    let file_bytes = vec![0x1fu8, 0x8b, 0x08, 0x00, 0x42];
    let parts = vec![
        part("id", b"m1"),
        part("title", b"First Mod"),
        part("version", b"1.0.0"),
        part("file", &file_bytes),
    ];
    let (meta, writes) = assemble_parts(parts);

    let mut blobs: HashMap<String, Vec<u8>> = HashMap::new();
    for w in writes {
        blobs.insert(w.path, w.data);
    }

    let mut store = MetadataStore::open_in_memory().unwrap();
    store.upsert(&meta).unwrap();

    let path = store.file_path_of(&"m1".to_string()).unwrap();
    assert_eq!(path, "mods/m1.gz");
    let downloaded = blobs.get(&path).unwrap();
    assert_eq!(downloaded, &file_bytes);
}

#[test]
fn file_before_id_goes_to_empty_id_path() {
    // The documented ordering dependency: a file part that arrives before the
    // id part is stored under the empty-id location, without a crash.
    let parts = vec![part("file", b"payload"), part("id", b"m1")];
    let (meta, writes) = assemble_parts(parts);
    assert_eq!(writes.len(), 1);
    assert_eq!(writes[0].path, "mods/.gz");
    assert_eq!(writes[0].data, b"payload".to_vec());
    assert_eq!(meta.id, "m1");
    assert_eq!(meta.file_path, "mods/.gz");
}

#[test]
fn later_file_part_wins() {
    let parts = vec![part("id", b"m1"), part("file", b"old"), part("file", b"new")];
    let (meta, writes) = assemble_parts(parts);
    assert_eq!(writes.len(), 2);
    assert_eq!(writes[1].path, "mods/m1.gz");
    assert_eq!(writes[1].data, b"new".to_vec());
    assert_eq!(meta.file_path, "mods/m1.gz");
}

#[test]
fn thumbnail_is_base64_encoded() {
    let parts = vec![part("id", b"m1"), part("thumbnail", &[1u8, 2, 3])];
    let (meta, writes) = assemble_parts(parts);
    assert!(writes.is_empty());
    assert_eq!(meta.thumbnail, "AQID");
}

#[test]
fn thumbnail_base64_padding() {
    let (meta, _) = assemble_parts(vec![part("thumbnail", &[0xffu8])]);
    assert_eq!(meta.thumbnail, "/w==");
}

#[test]
fn empty_thumbnail_stays_empty() {
    let (meta, _) = assemble_parts(vec![part("thumbnail", b"")]);
    assert_eq!(meta.thumbnail, "");
}

#[test]
fn text_fields_decode_lossily() {
    // 0xFF is no valid UTF-8: it becomes the replacement character instead of
    // failing the upload.
    let parts = vec![part("id", b"m1"), part("title", &[0xffu8, b'a'])];
    let (meta, _) = assemble_parts(parts);
    assert_eq!(meta.id, "m1");
    assert_eq!(meta.title, "\u{FFFD}a");
}

#[test]
fn unknown_field_names_are_ignored() {
    let parts = vec![
        part("id", b"m1"),
        part("bogus", b"whatever"),
        part("titel", b"typo dropped"),
    ];
    let (meta, writes) = assemble_parts(parts);
    assert!(writes.is_empty());
    assert_eq!(meta.id, "m1");
    assert_eq!(meta.title, "");
}

#[test]
fn omitted_fields_stay_empty() {
    let (meta, _) = assemble_parts(vec![part("id", b"m1"), part("title", b"T")]);
    assert_eq!(meta.version, "");
    assert_eq!(meta.thumbnail, "");
    assert_eq!(meta.file_path, "");
}

#[test]
fn streaming_assembler_matches_buffered() {
    let mut asm1 = UploadAssembler::new();
    assert!(asm1.apply_part(part("id", b"x")).is_none());
    let w = asm1.apply_part(part("file", b"bytes"));
    let meta1 = asm1.finish();
    let (meta2, writes2) = assemble_parts(vec![part("id", b"x"), part("file", b"bytes")]);
    assert_eq!(meta1.id, meta2.id);
    assert_eq!(meta1.file_path, meta2.file_path);
    let w = w.unwrap();
    assert_eq!(w.path, writes2[0].path);
    assert_eq!(w.data, writes2[0].data);
}
