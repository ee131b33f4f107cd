use meson_app::text::{str_eq, str_starts_with};
use meson_app::paths::{
    decode_file_id_param, file_detail_href, is_image_mime, urlencoding_path, ROOT,
};
use meson_app::preview::{FilePreviewPayload, PreviewMode};
use meson_app::status::{badge_for_file_status, BadgeAppearance, BadgeColor};
use meson_app::ui::{preview_pane_view, size_unit, PreviewPaneView, SizeUnit};

#[test]
fn badges_for_known_statuses() {
    assert_eq!(
        badge_for_file_status("available"),
        ("Available".to_string(), BadgeAppearance::Filled, BadgeColor::Success)
    );
    assert_eq!(
        badge_for_file_status("pending_virus_scan"),
        ("Pending".to_string(), BadgeAppearance::Tint, BadgeColor::Informative)
    );
    assert_eq!(
        badge_for_file_status("virus_scan_complete"),
        ("Pending".to_string(), BadgeAppearance::Tint, BadgeColor::Informative)
    );
    assert_eq!(
        badge_for_file_status("quarantined"),
        ("Quarantined".to_string(), BadgeAppearance::Filled, BadgeColor::Danger)
    );
}

#[test]
fn unknown_status_is_shown_as_is() {
    assert_eq!(
        badge_for_file_status("deleted"),
        ("deleted".to_string(), BadgeAppearance::Outline, BadgeColor::Subtle)
    );
    assert_eq!(
        badge_for_file_status("Available"),
        ("Available".to_string(), BadgeAppearance::Outline, BadgeColor::Subtle)
    );
    assert_eq!(badge_for_file_status(""), (String::new(), BadgeAppearance::Outline, BadgeColor::Subtle));
}

#[test]
fn record_ids_in_paths() {
    assert_eq!(urlencoding_path("e2e_meson_file:abc"), "e2e_meson_file%3Aabc");
    assert_eq!(urlencoding_path("a:b:c"), "a%3Ab%3Ac");
    assert_eq!(urlencoding_path("file-available"), "file-available");
    assert_eq!(decode_file_id_param("e2e_meson_file%3Aabc"), "e2e_meson_file:abc");
    assert_eq!(decode_file_id_param("%3A%3A"), "::");
    assert_eq!(decode_file_id_param("%3"), "%3");
    assert_eq!(decode_file_id_param("%%3AA"), "%:A");
}

#[test]
fn path_roundtrip() {
    for id in ["t:1", "user:owner", "no-colon", "x::y", "%:A", "%3:", ""] {
        assert_eq!(decode_file_id_param(&urlencoding_path(id)), id);
    }
    // An id that already holds `%3A` is where the roundtrip stops holding.
    assert_eq!(decode_file_id_param(&urlencoding_path("a%3Ab")), "a:b");
}

#[test]
fn detail_links() {
    assert_eq!(ROOT, "/meson");
    assert_eq!(file_detail_href("file-available"), "/meson/files/file-available");
    assert_eq!(file_detail_href("e2e_meson_file:x"), "/meson/files/e2e_meson_file%3Ax");
}

#[test]
fn image_mime_detection() {
    assert!(is_image_mime("image/png"));
    assert!(is_image_mime("image/"));
    assert!(!is_image_mime("text/plain"));
    assert!(!is_image_mime("image"));
    assert!(!is_image_mime("IMAGE/png"));
}

#[test]
fn size_units() {
    assert_eq!(size_unit(0), SizeUnit::Bytes);
    assert_eq!(size_unit(1023), SizeUnit::Bytes);
    assert_eq!(size_unit(1024), SizeUnit::Kilobytes);
    assert_eq!(size_unit(1024 * 1024 - 1), SizeUnit::Kilobytes);
    assert_eq!(size_unit(1024 * 1024), SizeUnit::Megabytes);
    assert_eq!(size_unit(-5), SizeUnit::Bytes);
}

fn payload(mode: PreviewMode, content: &str) -> FilePreviewPayload {
    FilePreviewPayload {
        mode,
        mime_type: "text/plain".to_string(),
        content: content.to_string(),
        size_bytes: 19,
    }
}

#[test]
fn preview_pane_by_mode() {
    match preview_pane_view(&payload(PreviewMode::Text, "hello from fixture")) {
        PreviewPaneView::Code(text) => assert_eq!(text, "hello from fixture"),
        other => panic!("unexpected {other:?}"),
    }
    match preview_pane_view(&payload(PreviewMode::Unsupported, "")) {
        PreviewPaneView::EmptyState { message, note } => {
            assert_eq!(message, "No preview for this file type");
            assert_eq!(
                note.as_deref(),
                Some("Open the file locally after downloading from the product that uploaded it.")
            );
        }
        other => panic!("unexpected {other:?}"),
    }
    match preview_pane_view(&payload(PreviewMode::Image, "AAAA")) {
        PreviewPaneView::EmptyState { message, note } => {
            assert_eq!(message, "Open this file from the image preview above");
            assert!(note.is_none());
        }
        other => panic!("unexpected {other:?}"),
    }
}

#[test]
fn text_helpers() {
    assert!(str_eq("available", "available"));
    assert!(!str_eq("available", "availabl"));
    assert!(!str_eq("héllo", "hello"));
    assert!(str_eq("", ""));
    assert!(str_starts_with("image/png", "image/"));
    assert!(str_starts_with("abc", ""));
    assert!(!str_starts_with("ab", "abc"));
}
