//! Baseline fixtures of the browser test host.

use vstd::prelude::*;
use vstd::string::*;

verus! {

/// Stable fixture ids exposed to seed requests and browser tests.
#[derive(Clone, Debug, Default)]
pub struct FixtureIds {
    pub owner_image_file_id: String,
    pub owner_text_file_id: String,
    pub peer_file_id: String,
}

/// The fixture ids as character sequences.
pub struct FixtureIdsView {
    pub owner_image_file_id: Seq<char>,
    pub owner_text_file_id: Seq<char>,
    pub peer_file_id: Seq<char>,
}

impl View for FixtureIds {
    type V = FixtureIdsView;

    open spec fn view(&self) -> FixtureIdsView {
        FixtureIdsView {
            owner_image_file_id: self.owner_image_file_id@,
            owner_text_file_id: self.owner_text_file_id@,
            peer_file_id: self.peer_file_id@,
        }
    }
}

/// A copy of the ids of the fixtures seeded at boot.
pub fn e2e_fixtures(seeded: &FixtureIds) -> (ids: FixtureIds)
    ensures
        ids@ == seeded@,
{
    FixtureIds {
        owner_image_file_id: seeded.owner_image_file_id.clone(),
        owner_text_file_id: seeded.owner_text_file_id.clone(),
        peer_file_id: seeded.peer_file_id.clone(),
    }
}

/// Who uploaded a fixture file.
#[derive(Clone, Copy, Debug, PartialEq, Eq, Structural)]
pub enum FixtureUploader {
    /// The signed-in test user.
    Owner,
    /// Another user, whose files the owner must not see.
    Peer,
}

/// One file seeded at boot.
#[derive(Debug)]
pub struct FixtureSeed {
    /// Record id without the table prefix.
    pub bare_id: String,
    pub uploader: FixtureUploader,
    pub file_name: String,
    pub mime_type: String,
    pub storage_path: String,
    pub size_bytes: i64,
}

/// Whether `f` is the seed with the given values.
pub open spec fn is_seed(
    f: FixtureSeed,
    bare_id: Seq<char>,
    uploader: FixtureUploader,
    file_name: Seq<char>,
    mime_type: Seq<char>,
    storage_path: Seq<char>,
    size_bytes: i64,
) -> bool {
    &&& f.bare_id@ == bare_id
    &&& f.uploader == uploader
    &&& f.file_name@ == file_name
    &&& f.mime_type@ == mime_type
    &&& f.storage_path@ == storage_path
    &&& f.size_bytes == size_bytes
}

fn seed(
    bare_id: &str,
    uploader: FixtureUploader,
    file_name: &str,
    mime_type: &str,
    storage_path: &str,
    size_bytes: i64,
) -> (f: FixtureSeed)
    ensures
        is_seed(f, bare_id@, uploader, file_name@, mime_type@, storage_path@, size_bytes),
{
    FixtureSeed {
        bare_id: String::from_str(bare_id),
        uploader,
        file_name: String::from_str(file_name),
        mime_type: String::from_str(mime_type),
        storage_path: String::from_str(storage_path),
        size_bytes,
    }
}

/// The files seeded at boot, in order: the owner's image, the owner's text
/// file, and one image of the peer.
pub fn baseline_fixture_seeds() -> (seeds: Vec<FixtureSeed>)
    ensures
        seeds@.len() == 3,
        is_seed(
            seeds@[0],
            "owner-image"@,
            FixtureUploader::Owner,
            "receipt.png"@,
            "image/png"@,
            "owner-image.png"@,
            2048,
        ),
        is_seed(
            seeds@[1],
            "owner-text"@,
            FixtureUploader::Owner,
            "notes.txt"@,
            "text/plain"@,
            "owner-text.txt"@,
            64,
        ),
        is_seed(
            seeds@[2],
            "peer-file"@,
            FixtureUploader::Peer,
            "peer-only.png"@,
            "image/png"@,
            "peer-file.png"@,
            1024,
        ),
{
    let mut seeds: Vec<FixtureSeed> = Vec::new();
    seeds.push(
        seed("owner-image", FixtureUploader::Owner, "receipt.png", "image/png", "owner-image.png", 2048),
    );
    seeds.push(
        seed("owner-text", FixtureUploader::Owner, "notes.txt", "text/plain", "owner-text.txt", 64),
    );
    seeds.push(
        seed("peer-file", FixtureUploader::Peer, "peer-only.png", "image/png", "peer-file.png", 1024),
    );
    seeds
}

/// The extension of a file name: what follows its last `.`, or the whole
/// name when it has none.
pub open spec fn extension_spec(name: Seq<char>) -> Seq<char>
    decreases name.len(),
{
    if name.len() == 0 {
        Seq::empty()
    } else if name.last() == '.' {
        Seq::empty()
    } else {
        extension_spec(name.drop_last()).push(name.last())
    }
}

proof fn lemma_extension_of_dotless_tail(name: Seq<char>, i: int)
    requires
        0 <= i <= name.len(),
        forall|j: int| i <= j < name.len() ==> name[j] != '.',
    ensures
        extension_spec(name) == extension_spec(name.subrange(0, i)) + name.subrange(
            i,
            name.len() as int,
        ),
    decreases name.len() - i,
{
    if i < name.len() {
        let shorter = name.drop_last();
        lemma_extension_of_dotless_tail(shorter, i);
        assert(shorter.subrange(0, i) =~= name.subrange(0, i));
        assert(name.subrange(i, name.len() as int) =~= shorter.subrange(
            i,
            shorter.len() as int,
        ).push(name.last()));
    } else {
        assert(name.subrange(0, i) =~= name);
        assert(name.subrange(i, name.len() as int) =~= Seq::<char>::empty());
    }
}

/// The extension recorded for a seeded file: what follows the last `.` of
/// its name, or the whole name when it has none.
pub fn file_extension(file_name: &str) -> (ext: String)
    ensures
        ext@ == extension_spec(file_name@),
        ext@.len() <= file_name@.len(),
        ext@ == file_name@.subrange(file_name@.len() - ext@.len(), file_name@.len() as int),
        forall|j: int| 0 <= j < ext@.len() ==> ext@[j] != '.',
        ext@.len() < file_name@.len() ==> file_name@[file_name@.len() - ext@.len() - 1] == '.',
{
    let n = file_name.unicode_len();
    let mut i: usize = n;
    while i > 0 && file_name.get_char(i - 1) != '.'
        invariant
            n == file_name@.len(),
            i <= n,
            forall|j: int| i <= j < n ==> file_name@[j] != '.',
        decreases i,
    {
        i = i - 1;
    }
    proof {
        let s = file_name@;
        lemma_extension_of_dotless_tail(s, i as int);
        if i > 0 {
            assert(s.subrange(0, i as int).last() == s[i - 1]);
        } else {
            assert(s.subrange(0, 0) =~= Seq::<char>::empty());
        }
    }
    String::from_str(file_name.substring_char(i, n))
}

} // verus!
