use meson_app::error::{auth_error, forbidden_error, io_error, not_found_error, MesonAppError};
use meson_app::preview::{
    preview_before_fetch, preview_payload_from_bytes, reject_oversized_preview_metadata,
    FilePreviewPayload, PreviewKind, PreviewMode, PreviewStep, MAX_PREVIEW_BYTES,
};

#[test]
fn error_prefixes_stable() {
    assert!(auth_error("x").to_string().contains("auth:"));
    assert!(not_found_error("x").to_string().contains("not_found:"));
    assert!(forbidden_error("x").to_string().contains("forbidden:"));
    assert!(io_error("x").to_string().contains("io:"));
}

#[test]
fn preview_image_happy() {
    let p = preview_payload_from_bytes(PreviewKind::Image, "image/png", b"PNG..", 5).expect("ok");
    assert_eq!(p.mode, PreviewMode::Image);
    assert!(!p.content.is_empty());
}

#[test]
fn preview_text_happy() {
    let p = preview_payload_from_bytes(PreviewKind::Text, "text/plain", b"hello", 5).expect("ok");
    assert_eq!(p.mode, PreviewMode::Text);
    assert_eq!(p.content, "hello");
}

#[test]
fn preview_unsupported_happy() {
    let p = preview_payload_from_bytes(PreviewKind::Unsupported, "application/pdf", b"%PDF", 4)
        .expect("ok");
    assert_eq!(p.mode, PreviewMode::Unsupported);
    assert!(p.content.is_empty());
}

#[test]
fn preview_size_limit_sad() {
    let oversized = vec![0u8; MAX_PREVIEW_BYTES + 1];
    let size = i64::try_from(oversized.len()).expect("size fits i64");
    let err = preview_payload_from_bytes(PreviewKind::Image, "image/png", &oversized, size)
        .unwrap_err();
    assert!(err.to_string().contains("io:"));
    assert!(err.to_string().contains("exceeds preview size limit"));
}

#[test]
fn preview_metadata_size_guard_rejects_before_fetch() {
    let max = i64::try_from(MAX_PREVIEW_BYTES).expect("max fits i64");
    let err = reject_oversized_preview_metadata(max + 1).unwrap_err();
    assert!(err.to_string().contains("exceeds preview size limit"));
    assert!(reject_oversized_preview_metadata(max).is_ok());
}

#[test]
fn error_wire_forms_exact() {
    assert_eq!(auth_error("Authentication required").to_string(), "auth: Authentication required");
    assert_eq!(not_found_error("File not found").to_string(), "not_found: File not found");
    assert_eq!(forbidden_error("nope").to_string(), "forbidden: nope");
    assert_eq!(io_error("list files failed").to_string(), "io: list files failed");
}

#[test]
fn io_source_keeps_source_off_the_wire() {
    let e = MesonAppError::io_source("blob get failed", "disk unplugged".to_string());
    assert_eq!(e.to_string(), "io: blob get failed");
    match e {
        MesonAppError::Io { msg, source } => {
            assert_eq!(msg, "blob get failed");
            assert_eq!(source.as_deref(), Some("disk unplugged"));
        }
        other => panic!("unexpected {other:?}"),
    }
    match MesonAppError::io_msg("x") {
        MesonAppError::Io { source, .. } => assert!(source.is_none()),
        other => panic!("unexpected {other:?}"),
    }
}

#[test]
fn constructors_pick_their_variant() {
    assert!(matches!(MesonAppError::auth("a"), MesonAppError::Auth(d) if d == "a"));
    assert!(matches!(MesonAppError::not_found("b"), MesonAppError::NotFound(d) if d == "b"));
    assert!(matches!(MesonAppError::forbidden("c"), MesonAppError::Forbidden(d) if d == "c"));
}

#[test]
fn metadata_guard_edges() {
    assert!(reject_oversized_preview_metadata(0).is_ok());
    assert!(reject_oversized_preview_metadata(-1).is_ok());
    assert!(reject_oversized_preview_metadata(5 * 1024 * 1024).is_ok());
    assert!(reject_oversized_preview_metadata(i64::MAX).is_err());
    assert_eq!(
        reject_oversized_preview_metadata(5 * 1024 * 1024 + 1).unwrap_err().to_string(),
        "io: File exceeds preview size limit"
    );
}

#[test]
fn image_preview_is_standard_base64() {
    let p = preview_payload_from_bytes(PreviewKind::Image, "image/png", b"PNG..", 5).expect("ok");
    assert_eq!(p.content, "UE5HLi4=");
    assert_eq!(p.mime_type, "image/png");
    assert_eq!(p.size_bytes, 5);
    let p = preview_payload_from_bytes(PreviewKind::Image, "image/gif", b"hello", 99).expect("ok");
    assert_eq!(p.content, "aGVsbG8=");
    assert_eq!(p.size_bytes, 99);
    let p = preview_payload_from_bytes(PreviewKind::Image, "image/gif", b"", 0).expect("ok");
    assert_eq!(p.content, "");
    let p = preview_payload_from_bytes(PreviewKind::Image, "image/gif", &[0xfb, 0xff], 2)
        .expect("ok");
    assert_eq!(p.content, "+/8=");
}

#[test]
fn text_preview_replaces_invalid_utf8() {
    let p = preview_payload_from_bytes(PreviewKind::Text, "text/plain", &[b'a', 0xff, b'b'], 3)
        .expect("ok");
    assert_eq!(p.content, "a\u{FFFD}b");
    let p = preview_payload_from_bytes(PreviewKind::Text, "text/plain", "héllo".as_bytes(), 6)
        .expect("ok");
    assert_eq!(p.content, "héllo");
}

#[test]
fn preview_at_exact_cap_is_accepted() {
    let at_cap = vec![b'a'; MAX_PREVIEW_BYTES];
    let p = preview_payload_from_bytes(PreviewKind::Text, "text/plain", &at_cap, 1).expect("ok");
    assert_eq!(p.content.len(), MAX_PREVIEW_BYTES);
    let oversized = vec![0u8; MAX_PREVIEW_BYTES + 1];
    let p = preview_payload_from_bytes(PreviewKind::Unsupported, "application/zip", &oversized, 7)
        .expect("unsupported never checks size");
    assert_eq!(
        p,
        FilePreviewPayload {
            mode: PreviewMode::Unsupported,
            mime_type: "application/zip".to_string(),
            content: String::new(),
            size_bytes: 7,
        }
    );
}

#[test]
fn before_fetch_decisions() {
    match preview_before_fetch(PreviewKind::Unsupported, "application/pdf", 9_999_999_999) {
        PreviewStep::Respond(Ok(p)) => {
            assert_eq!(p.mode, PreviewMode::Unsupported);
            assert_eq!(p.mime_type, "application/pdf");
            assert!(p.content.is_empty());
            assert_eq!(p.size_bytes, 9_999_999_999);
        }
        _ => panic!("unsupported answers with metadata"),
    }
    match preview_before_fetch(PreviewKind::Image, "image/png", 5 * 1024 * 1024 + 1) {
        PreviewStep::Respond(Err(e)) => {
            assert_eq!(e.to_string(), "io: File exceeds preview size limit")
        }
        _ => panic!("oversized rejects before fetch"),
    }
    assert!(matches!(
        preview_before_fetch(PreviewKind::Text, "text/plain", 5 * 1024 * 1024),
        PreviewStep::FetchBytes
    ));
    assert!(matches!(
        preview_before_fetch(PreviewKind::Image, "image/png", 2048),
        PreviewStep::FetchBytes
    ));
}

#[test]
fn before_fetch_agrees_with_payload_when_size_is_real() {
    let bytes = vec![7u8; MAX_PREVIEW_BYTES + 3];
    let size = bytes.len() as i64;
    let before = match preview_before_fetch(PreviewKind::Text, "text/plain", size) {
        PreviewStep::Respond(r) => r.unwrap_err().to_string(),
        PreviewStep::FetchBytes => panic!("must not fetch"),
    };
    let after = preview_payload_from_bytes(PreviewKind::Text, "text/plain", &bytes, size)
        .unwrap_err()
        .to_string();
    assert_eq!(before, after);
}
