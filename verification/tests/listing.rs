use meson_app::files::{
    file_for_user_from_lookup, row_from_file, rows_for_listing, FileRecord, MyFileRow,
    RecordIdParts,
};

fn record(id: Option<(&str, &str)>, name: &str) -> FileRecord {
    FileRecord {
        id: id.map(|(full, table)| RecordIdParts { full: full.to_string(), table: table.to_string() }),
        file_name: name.to_string(),
        mime_type: "image/png".to_string(),
        size_bytes: 4096,
        file_status: "available".to_string(),
        uploaded_at: "2024-05-01T10:00:00+00:00".to_string(),
    }
}

#[test]
fn row_projection_copies_fields() {
    let row = row_from_file(&record(Some(("profile_photo:abc", "profile_photo")), "owned.png"))
        .expect("row with id");
    assert_eq!(
        row,
        MyFileRow {
            id: "profile_photo:abc".to_string(),
            source_table: "profile_photo".to_string(),
            file_name: "owned.png".to_string(),
            mime_type: "image/png".to_string(),
            size_bytes: 4096,
            file_status: "available".to_string(),
            uploaded_at: "2024-05-01T10:00:00+00:00".to_string(),
        }
    );
}

#[test]
fn row_without_id_is_not_found() {
    let err = row_from_file(&record(None, "ghost.png")).unwrap_err();
    assert_eq!(err.to_string(), "not_found: File not found");
}

#[test]
fn listing_skips_rows_without_id_and_keeps_order() {
    let recs = vec![
        record(Some(("t:1", "t")), "first.png"),
        record(None, "skipped.png"),
        record(Some(("u:2", "u")), "second.png"),
    ];
    let rows = rows_for_listing(&recs);
    assert_eq!(rows.len(), 2);
    assert_eq!(rows[0].file_name, "first.png");
    assert_eq!(rows[0].source_table, "t");
    assert_eq!(rows[1].file_name, "second.png");
    assert_eq!(rows[1].id, "u:2");
    assert!(rows_for_listing(&Vec::new()).is_empty());
}

#[test]
fn missing_and_foreign_lookups_collapse() {
    let missing = file_for_user_from_lookup(None).unwrap_err().to_string();
    let foreign = file_for_user_from_lookup(None).unwrap_err().to_string();
    assert_eq!(missing, "not_found: File not found");
    assert_eq!(missing, foreign);
    let found = file_for_user_from_lookup(Some(record(Some(("e2e_meson_file:owner-1", "e2e_meson_file")), "receipt.png")))
        .expect("owner reads own file");
    assert_eq!(found.file_name, "receipt.png");
}
