use meson_app::fixtures::{
    baseline_fixture_seeds, e2e_fixtures, file_extension, FixtureIds, FixtureUploader,
};
use meson_app::session::{require_session, session_record_id, session_user_id, valence_build_error};

#[test]
fn session_checks() {
    assert!(require_session(Some("user:owner")).is_ok());
    assert_eq!(
        require_session(None).unwrap_err().to_string(),
        "auth: Authentication required"
    );
    assert_eq!(session_user_id(Some("user:owner")).expect("id"), "user:owner");
    assert_eq!(
        session_user_id(None).unwrap_err().to_string(),
        "auth: Authentication required"
    );
    assert_eq!(session_record_id(Some(7u32)).expect("parsed"), 7);
    assert_eq!(
        session_record_id::<u32>(None).unwrap_err().to_string(),
        "auth: Invalid session user id"
    );
    assert_eq!(
        valence_build_error("no router").to_string(),
        "auth: Failed to build Valence: no router"
    );
}

#[test]
fn fixture_ids_copy() {
    let seeded = FixtureIds {
        owner_image_file_id: "e2e_meson_file:owner-image".to_string(),
        owner_text_file_id: "e2e_meson_file:owner-text".to_string(),
        peer_file_id: "e2e_meson_file:peer-file".to_string(),
    };
    let ids = e2e_fixtures(&seeded);
    assert_eq!(ids.owner_image_file_id, seeded.owner_image_file_id);
    assert_eq!(ids.owner_text_file_id, seeded.owner_text_file_id);
    assert_eq!(ids.peer_file_id, seeded.peer_file_id);
    let empty = e2e_fixtures(&FixtureIds::default());
    assert!(empty.peer_file_id.is_empty());
}

#[test]
fn baseline_seeds() {
    let seeds = baseline_fixture_seeds();
    assert_eq!(seeds.len(), 3);
    assert_eq!(seeds[0].bare_id, "owner-image");
    assert_eq!(seeds[0].uploader, FixtureUploader::Owner);
    assert_eq!(seeds[0].file_name, "receipt.png");
    assert_eq!(seeds[0].size_bytes, 2048);
    assert_eq!(seeds[1].mime_type, "text/plain");
    assert_eq!(seeds[1].storage_path, "owner-text.txt");
    assert_eq!(seeds[2].uploader, FixtureUploader::Peer);
    assert_eq!(seeds[2].file_name, "peer-only.png");
    assert_eq!(seeds[2].size_bytes, 1024);
}

#[test]
fn extensions() {
    assert_eq!(file_extension("receipt.png"), "png");
    assert_eq!(file_extension("archive.tar.gz"), "gz");
    assert_eq!(file_extension("README"), "README");
    assert_eq!(file_extension("trailing."), "");
    assert_eq!(file_extension(""), "");
}
