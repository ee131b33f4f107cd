//! Rows of the My Files list and the lookup of one owned file.

use vstd::prelude::*;
use vstd::string::*;

use crate::error::{not_found_error, not_found_prefix, MesonAppError};

verus! {

/// A record id in its two printed forms.
#[derive(Debug)]
pub struct RecordIdParts {
    /// Full `table:id` form.
    pub full: String,
    /// The table part.
    pub table: String,
}

/// A File row as the file store returns it, with its values printed.
#[derive(Debug)]
pub struct FileRecord {
    /// The record id; absent for a row that was never stored.
    pub id: Option<RecordIdParts>,
    pub file_name: String,
    pub mime_type: String,
    pub size_bytes: i64,
    /// File status enum as its wire string.
    pub file_status: String,
    /// Upload time as an RFC 3339 timestamp.
    pub uploaded_at: String,
}

/// One row in the My Files table (File projection plus source table).
#[derive(Clone, Debug, PartialEq, Eq)]
pub struct MyFileRow {
    /// Full `table:id` record id.
    pub id: String,
    /// Source table (e.g. `profile_photo`).
    pub source_table: String,
    /// Original upload name.
    pub file_name: String,
    /// Mime type.
    pub mime_type: String,
    /// Size in bytes.
    pub size_bytes: i64,
    /// File status enum as string.
    pub file_status: String,
    /// Uploaded-at ISO timestamp.
    pub uploaded_at: String,
}

/// A table row with its strings taken as character sequences.
pub struct MyFileRowView {
    pub id: Seq<char>,
    pub source_table: Seq<char>,
    pub file_name: Seq<char>,
    pub mime_type: Seq<char>,
    pub size_bytes: i64,
    pub file_status: Seq<char>,
    pub uploaded_at: Seq<char>,
}

impl View for MyFileRow {
    type V = MyFileRowView;

    open spec fn view(&self) -> MyFileRowView {
        MyFileRowView {
            id: self.id@,
            source_table: self.source_table@,
            file_name: self.file_name@,
            mime_type: self.mime_type@,
            size_bytes: self.size_bytes,
            file_status: self.file_status@,
            uploaded_at: self.uploaded_at@,
        }
    }
}

/// The table row of a stored record; `None` for a record without an id.
pub open spec fn row_spec(rec: FileRecord) -> Option<MyFileRowView> {
    match rec.id {
        Some(rid) => Some(
            MyFileRowView {
                id: rid.full@,
                source_table: rid.table@,
                file_name: rec.file_name@,
                mime_type: rec.mime_type@,
                size_bytes: rec.size_bytes,
                file_status: rec.file_status@,
                uploaded_at: rec.uploaded_at@,
            },
        ),
        None => None,
    }
}

/// The listed rows of `recs`: every record with an id, in order; records
/// without one are skipped.
pub open spec fn listing_spec(recs: Seq<FileRecord>) -> Seq<MyFileRowView>
    decreases recs.len(),
{
    if recs.len() == 0 {
        Seq::empty()
    } else {
        let rest = listing_spec(recs.drop_last());
        match row_spec(recs.last()) {
            Some(v) => rest.push(v),
            None => rest,
        }
    }
}

/// The detail of the not-found error of a file lookup.
pub open spec fn file_not_found_detail() -> Seq<char> {
    "File not found"@
}

/// Whether `e` is the not-found error of a file lookup.
pub open spec fn is_file_not_found(e: MesonAppError) -> bool {
    e matches MesonAppError::NotFound(d) && d@ == file_not_found_detail()
}

/// Records that have an id.
pub open spec fn has_id() -> spec_fn(FileRecord) -> bool {
    |r: FileRecord| r.id is Some
}

/// Whether `row` shows the record `rec` field for field: the full id and
/// table of its record id, and its name, mime type, size, status and upload
/// time.
pub open spec fn shows_record(row: MyFileRowView, rec: FileRecord) -> bool {
    &&& rec.id is Some
    &&& row.id == rec.id->0.full@
    &&& row.source_table == rec.id->0.table@
    &&& row.file_name == rec.file_name@
    &&& row.mime_type == rec.mime_type@
    &&& row.size_bytes == rec.size_bytes
    &&& row.file_status == rec.file_status@
    &&& row.uploaded_at == rec.uploaded_at@
}

/// A stored record has a row exactly when it has an id, and that row shows
/// the record unchanged, whatever its status, mime type or size.
pub proof fn lemma_row_shows_record(rec: FileRecord)
    ensures
        row_spec(rec) is Some <==> rec.id is Some,
        row_spec(rec) matches Some(v) ==> shows_record(v, rec),
{
}

/// The list has one row for every record with an id, in order, whatever its
/// status, mime type or size: the k-th row shows the k-th record with an id.
pub proof fn lemma_listing_shows_every_record_with_id(recs: Seq<FileRecord>)
    ensures
        listing_spec(recs).len() == recs.filter(has_id()).len(),
        forall|k: int|
            0 <= k < listing_spec(recs).len() ==> shows_record(
                #[trigger] listing_spec(recs)[k],
                recs.filter(has_id())[k],
            ),
    decreases recs.len(),
{
    reveal(Seq::filter);
    if recs.len() > 0 {
        lemma_listing_shows_every_record_with_id(recs.drop_last());
        let rest = listing_spec(recs.drop_last());
        let kept = recs.drop_last().filter(has_id());
        assert(recs.filter(has_id()) == (if has_id()(recs.last()) {
            kept.push(recs.last())
        } else {
            kept
        }));
        if recs.last().id is Some {
            assert forall|k: int| 0 <= k < listing_spec(recs).len() implies shows_record(
                #[trigger] listing_spec(recs)[k],
                recs.filter(has_id())[k],
            ) by {
                if k < rest.len() {
                    assert(listing_spec(recs)[k] == rest[k]);
                    assert(recs.filter(has_id())[k] == kept[k]);
                }
            }
        }
    }
}

/// Projects a stored record onto a table row; a record without an id is
/// not found.
pub fn row_from_file(rec: &FileRecord) -> (r: Result<MyFileRow, MesonAppError>)
    ensures
        match r {
            Ok(row) => row_spec(*rec) == Some(row@),
            Err(e) => row_spec(*rec) is None && is_file_not_found(e),
        },
        r is Ok <==> rec.id is Some,
        r matches Ok(row) ==> shows_record(row@, *rec),
{
    match &rec.id {
        Some(rid) => Ok(
            MyFileRow {
                id: rid.full.clone(),
                source_table: rid.table.clone(),
                file_name: rec.file_name.clone(),
                mime_type: rec.mime_type.clone(),
                size_bytes: rec.size_bytes,
                file_status: rec.file_status.clone(),
                uploaded_at: rec.uploaded_at.clone(),
            },
        ),
        None => {
            proof {
                reveal_strlit("File not found");
            }
            Err(not_found_error("File not found"))
        },
    }
}

/// The rows of the My Files list for the records the owner query returned:
/// each record with an id becomes a row, in order; one without is skipped.
pub fn rows_for_listing(recs: &Vec<FileRecord>) -> (rows: Vec<MyFileRow>)
    ensures
        rows@.map_values(|row: MyFileRow| row@) == listing_spec(recs@),
        rows@.len() == recs@.filter(has_id()).len(),
        forall|k: int|
            0 <= k < rows@.len() ==> shows_record(#[trigger] rows@[k]@, recs@.filter(has_id())[k]),
{
    let mut rows: Vec<MyFileRow> = Vec::new();
    let mut i: usize = 0;
    while i < recs.len()
        invariant
            i <= recs@.len(),
            rows@.map_values(|row: MyFileRow| row@) == listing_spec(recs@.take(i as int)),
        decreases recs@.len() - i,
    {
        let ghost before = rows@;
        let r = row_from_file(&recs[i]);
        assert(recs@.take(i + 1).drop_last() == recs@.take(i as int));
        assert(recs@.take(i + 1).last() == recs@[i as int]);
        match r {
            Ok(row) => {
                rows.push(row);
                assert(rows@.map_values(|row: MyFileRow| row@) == before.map_values(
                    |row: MyFileRow| row@,
                ).push(row@));
            },
            Err(_) => {},
        }
        i = i + 1;
    }
    assert(recs@.take(recs@.len() as int) == recs@);
    proof {
        lemma_listing_shows_every_record_with_id(recs@);
        assert forall|k: int| 0 <= k < rows@.len() implies shows_record(
            #[trigger] rows@[k]@,
            recs@.filter(has_id())[k],
        ) by {
            assert(rows@.map_values(|row: MyFileRow| row@)[k] == rows@[k]@);
        }
    }
    rows
}

/// The row that a lookup among the owner's rows found, or the not-found
/// error when it found none.
pub fn found_or_not_found<T>(found: Option<T>) -> (r: Result<T, MesonAppError>)
    ensures
        match r {
            Ok(row) => found == Some(row),
            Err(e) => found is None && is_file_not_found(e),
        },
{
    match found {
        Some(row) => Ok(row),
        None => {
            proof {
                reveal_strlit("File not found");
            }
            Err(not_found_error("File not found"))
        },
    }
}

/// Resolves the lookup of one file among the owner's rows: a row that was not
/// found, whether it is missing or belongs to someone else, is the same
/// not-found error.
pub fn file_for_user_from_lookup(found: Option<FileRecord>) -> (r: Result<MyFileRow, MesonAppError>)
    ensures
        found is None ==> (r matches Err(e) && is_file_not_found(e)),
        found matches Some(rec) ==> match r {
            Ok(row) => row_spec(rec) == Some(row@),
            Err(e) => row_spec(rec) is None && is_file_not_found(e),
        },
        r is Ok <==> (found matches Some(rec) && rec.id is Some),
        r matches Ok(row) ==> (found matches Some(rec) && shows_record(row@, rec)),
{
    match found_or_not_found(found) {
        Ok(rec) => row_from_file(&rec),
        Err(e) => Err(e),
    }
}

/// Every unresolved lookup reads the same on the wire: a missing id and an id
/// owned by someone else cannot be told apart.
pub proof fn lemma_not_found_lookups_read_alike(e1: MesonAppError, e2: MesonAppError)
    requires
        is_file_not_found(e1),
        is_file_not_found(e2),
    ensures
        e1.wire() == e2.wire(),
        e1.wire() == not_found_prefix() + file_not_found_detail(),
{
}

} // verus!
