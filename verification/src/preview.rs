//! Preview of an owned file: the size guard and the payload sent to the page.

use vstd::prelude::*;
use vstd::string::*;
use vstd::utf8::*;

use crate::codec::{
    base64_padded_len, base64_standard, decode_utf8_lossy, encode_base64_standard,
    is_base64_standard_char, lemma_base64_shape, utf8_lossy,
};
use crate::error::{io_error, io_prefix, MesonAppError};

verus! {

/// Largest preview payload, in bytes (matches the upload cap).
pub const MAX_PREVIEW_BYTES: usize = 5 * 1024 * 1024;

/// How a mime type is previewed, as the file store classifies it.
#[derive(Clone, Copy, Debug, PartialEq, Eq, Structural)]
pub enum PreviewKind {
    Image,
    Text,
    Unsupported,
}

/// How the client should render preview bytes.
#[derive(Clone, Copy, Debug, PartialEq, Eq, Structural)]
pub enum PreviewMode {
    /// Image bytes as Base64.
    Image,
    /// UTF-8 text.
    Text,
    /// No in-app preview; metadata only (bytes omitted).
    Unsupported,
}

/// Preview payload returned to the page.
#[derive(Clone, Debug, PartialEq, Eq)]
pub struct FilePreviewPayload {
    /// Render mode.
    pub mode: PreviewMode,
    /// Mime type from the file row.
    pub mime_type: String,
    /// Base64 (image) or UTF-8 (text); empty when unsupported.
    pub content: String,
    /// Byte length of the stored object, from the file row.
    pub size_bytes: i64,
}

/// A preview payload with its strings taken as character sequences.
pub struct PayloadView {
    pub mode: PreviewMode,
    pub mime_type: Seq<char>,
    pub content: Seq<char>,
    pub size_bytes: i64,
}

impl View for FilePreviewPayload {
    type V = PayloadView;

    open spec fn view(&self) -> PayloadView {
        PayloadView {
            mode: self.mode,
            mime_type: self.mime_type@,
            content: self.content@,
            size_bytes: self.size_bytes,
        }
    }
}

/// The detail of the error that a too large preview gets.
pub open spec fn size_limit_detail() -> Seq<char> {
    "File exceeds preview size limit"@
}

/// The payload of a file that has no in-app preview.
pub open spec fn unsupported_payload(mime: Seq<char>, size_bytes: i64) -> PayloadView {
    PayloadView {
        mode: PreviewMode::Unsupported,
        mime_type: mime,
        content: Seq::empty(),
        size_bytes,
    }
}

/// What a preview of `bytes` answers: its payload, or the wire form of its
/// error.
pub open spec fn preview_spec(kind: PreviewKind, mime: Seq<char>, bytes: Seq<u8>, size_bytes: i64)
    -> Result<PayloadView, Seq<char>> {
    if kind == PreviewKind::Unsupported {
        Ok(unsupported_payload(mime, size_bytes))
    } else if bytes.len() > MAX_PREVIEW_BYTES {
        Err(io_prefix() + size_limit_detail())
    } else if kind == PreviewKind::Image {
        Ok(
            PayloadView {
                mode: PreviewMode::Image,
                mime_type: mime,
                content: base64_standard(bytes),
                size_bytes,
            },
        )
    } else {
        Ok(
            PayloadView {
                mode: PreviewMode::Text,
                mime_type: mime,
                content: utf8_lossy(bytes),
                size_bytes,
            },
        )
    }
}

/// What a preview answers before the bytes are fetched: `None` when the
/// bytes must be fetched, else the answer.
pub open spec fn before_fetch_spec(kind: PreviewKind, mime: Seq<char>, size_bytes: i64) -> Option<
    Result<PayloadView, Seq<char>>,
> {
    if kind == PreviewKind::Unsupported {
        Some(Ok(unsupported_payload(mime, size_bytes)))
    } else if size_bytes > MAX_PREVIEW_BYTES {
        Some(Err(io_prefix() + size_limit_detail()))
    } else {
        None
    }
}

/// The error of a preview over the size limit.
pub open spec fn is_size_limit_error(e: MesonAppError) -> bool {
    e matches MesonAppError::Io { msg, source } && msg@ == size_limit_detail() && source is None
}

/// A preview result with its payload or error taken by value.
pub open spec fn result_view(r: Result<FilePreviewPayload, MesonAppError>) -> Result<
    PayloadView,
    Seq<char>,
> {
    match r {
        Ok(p) => Ok(p@),
        Err(e) => Err(e.wire()),
    }
}

/// Rejects a file whose recorded size already exceeds the preview cap, before
/// its bytes are fetched.
pub fn reject_oversized_preview_metadata(size_bytes: i64) -> (r: Result<(), MesonAppError>)
    ensures
        r is Ok <==> size_bytes <= MAX_PREVIEW_BYTES,
        r matches Err(e) ==> is_size_limit_error(e),
{
    let max: i64 = MAX_PREVIEW_BYTES as i64;
    if size_bytes > max {
        Err(io_error("File exceeds preview size limit"))
    } else {
        Ok(())
    }
}

/// The payload of a file without in-app preview.
fn unsupported(mime: &str, size_bytes: i64) -> (p: FilePreviewPayload)
    ensures
        p@ == unsupported_payload(mime@, size_bytes),
{
    FilePreviewPayload {
        mode: PreviewMode::Unsupported,
        mime_type: String::from_str(mime),
        content: String::new(),
        size_bytes,
    }
}

/// What to do once the file row is known and before its bytes are fetched.
pub enum PreviewStep {
    /// Answer now, without fetching the bytes.
    Respond(Result<FilePreviewPayload, MesonAppError>),
    /// Fetch the bytes, then build the payload with `preview_payload_from_bytes`.
    FetchBytes,
}

/// Decides, from the row's mime classification and recorded size, whether the
/// bytes are fetched: an unsupported type is answered with metadata only, and
/// an oversized file is rejected before any fetch.
pub fn preview_before_fetch(kind: PreviewKind, mime: &str, size_bytes: i64) -> (step: PreviewStep)
    ensures
        match step {
            PreviewStep::FetchBytes => before_fetch_spec(kind, mime@, size_bytes) is None,
            PreviewStep::Respond(r) => before_fetch_spec(kind, mime@, size_bytes) == Some(
                result_view(r),
            ),
        },
        step matches PreviewStep::Respond(Err(e)) ==> is_size_limit_error(e),
        kind != PreviewKind::Unsupported ==> (step is FetchBytes <==> size_bytes
            <= MAX_PREVIEW_BYTES),
        kind != PreviewKind::Unsupported && size_bytes > MAX_PREVIEW_BYTES ==> (
        step matches PreviewStep::Respond(Err(e)) && is_size_limit_error(e)),
        kind == PreviewKind::Unsupported ==> (step matches PreviewStep::Respond(Ok(p))
            && p.mode == PreviewMode::Unsupported && p.mime_type@ == mime@ && p.size_bytes
            == size_bytes && p.content@.len() == 0),
{
    if kind == PreviewKind::Unsupported {
        return PreviewStep::Respond(Ok(unsupported(mime, size_bytes)));
    }
    match reject_oversized_preview_metadata(size_bytes) {
        Err(e) => {
            proof {
                reveal_strlit("File exceeds preview size limit");
            }
            PreviewStep::Respond(Err(e))
        },
        Ok(()) => PreviewStep::FetchBytes,
    }
}

/// Maps a file's mime classification and fetched bytes to the preview
/// payload: images as Base64, text decoded as UTF-8 (lossily), anything else
/// as metadata only; bytes over the cap are rejected.
pub fn preview_payload_from_bytes(
    kind: PreviewKind,
    mime: &str,
    bytes: &[u8],
    size_bytes: i64,
) -> (r: Result<FilePreviewPayload, MesonAppError>)
    ensures
        result_view(r) == preview_spec(kind, mime@, bytes@, size_bytes),
        r matches Err(e) ==> is_size_limit_error(e),
        r matches Ok(p) ==> (p.mode == PreviewMode::Image ==> p.content@.len() == base64_padded_len(
            bytes@.len(),
        ) && forall|i: int|
            0 <= i < p.content@.len() ==> is_base64_standard_char(#[trigger] p.content@[i])),
        r matches Ok(p) ==> (p.mode == PreviewMode::Text && valid_utf8(bytes@) ==> p.content@
            == decode_utf8(bytes@)),
        kind == PreviewKind::Unsupported ==> r is Ok,
        kind != PreviewKind::Unsupported ==> (r is Ok <==> bytes@.len() <= MAX_PREVIEW_BYTES),
        r matches Ok(p) ==> p.mime_type@ == mime@ && p.size_bytes == size_bytes,
        r matches Ok(p) ==> (kind == PreviewKind::Image ==> p.mode == PreviewMode::Image
            && p.content@ == base64_standard(bytes@)),
        r matches Ok(p) ==> (kind == PreviewKind::Text ==> p.mode == PreviewMode::Text
            && p.content@ == utf8_lossy(bytes@)),
        r matches Ok(p) ==> (kind == PreviewKind::Unsupported ==> p.mode
            == PreviewMode::Unsupported && p.content@.len() == 0),
{
    if kind == PreviewKind::Unsupported {
        return Ok(unsupported(mime, size_bytes));
    }
    if bytes.len() > MAX_PREVIEW_BYTES {
        proof {
            reveal_strlit("File exceeds preview size limit");
        }
        return Err(io_error("File exceeds preview size limit"));
    }
    match kind {
        PreviewKind::Image => {
            assert(base64_padded_len(bytes@.len()) <= usize::MAX);
            proof {
                lemma_base64_shape(bytes@);
            }
            Ok(
                FilePreviewPayload {
                    mode: PreviewMode::Image,
                    mime_type: String::from_str(mime),
                    content: encode_base64_standard(bytes),
                    size_bytes,
                },
            )
        },
        PreviewKind::Text => Ok(
            FilePreviewPayload {
                mode: PreviewMode::Text,
                mime_type: String::from_str(mime),
                content: decode_utf8_lossy(bytes),
                size_bytes,
            },
        ),
        PreviewKind::Unsupported => Ok(unsupported(mime, size_bytes)),
    }
}

/// The answer given before the bytes are fetched never differs from the one
/// the fetched bytes would give, when the recorded size is the real size; and
/// when the bytes are fetched, that answer is a payload, never the size error.
pub proof fn lemma_before_fetch_agrees_with_payload(
    kind: PreviewKind,
    mime: Seq<char>,
    bytes: Seq<u8>,
    size_bytes: i64,
)
    requires
        bytes.len() == size_bytes,
    ensures
        before_fetch_spec(kind, mime, size_bytes) matches Some(answer) ==> answer == preview_spec(
            kind,
            mime,
            bytes,
            size_bytes,
        ),
        before_fetch_spec(kind, mime, size_bytes) is None ==> preview_spec(
            kind,
            mime,
            bytes,
            size_bytes,
        ) is Ok,
{
}

/// A file without in-app preview gets the same metadata-only payload whatever
/// its bytes, before or after a fetch.
pub proof fn lemma_unsupported_ignores_bytes(
    mime: Seq<char>,
    bytes1: Seq<u8>,
    bytes2: Seq<u8>,
    size_bytes: i64,
)
    ensures
        preview_spec(PreviewKind::Unsupported, mime, bytes1, size_bytes) == preview_spec(
            PreviewKind::Unsupported,
            mime,
            bytes2,
            size_bytes,
        ),
        before_fetch_spec(PreviewKind::Unsupported, mime, size_bytes) == Some(
            preview_spec(PreviewKind::Unsupported, mime, bytes1, size_bytes),
        ),
        preview_spec(PreviewKind::Unsupported, mime, bytes1, size_bytes) matches Ok(p)
            && p.content.len() == 0,
{
}

/// For a file with an in-app preview, the size limit alone decides: the
/// fetched bytes give a payload exactly when there are at most
/// `MAX_PREVIEW_BYTES` of them, whatever the kind, and otherwise the
/// size-limit error; before the fetch, such a file is fetched exactly when its
/// recorded size is at most `MAX_PREVIEW_BYTES`.
pub proof fn lemma_size_limit_decides_supported_previews(
    kind: PreviewKind,
    mime: Seq<char>,
    bytes: Seq<u8>,
    size_bytes: i64,
)
    requires
        kind != PreviewKind::Unsupported,
    ensures
        preview_spec(kind, mime, bytes, size_bytes) is Ok <==> bytes.len() <= 5 * 1024 * 1024,
        bytes.len() > 5 * 1024 * 1024 ==> preview_spec(kind, mime, bytes, size_bytes) == Err::<
            PayloadView,
            Seq<char>,
        >("io: File exceeds preview size limit"@),
        before_fetch_spec(kind, mime, size_bytes) is None <==> size_bytes <= 5 * 1024 * 1024,
        size_bytes > 5 * 1024 * 1024 ==> before_fetch_spec(kind, mime, size_bytes) == Some(
            Err::<PayloadView, Seq<char>>("io: File exceeds preview size limit"@),
        ),
{
    reveal_strlit("io: File exceeds preview size limit");
    reveal_strlit("File exceeds preview size limit");
    assert(io_prefix() + size_limit_detail() =~= "io: File exceeds preview size limit"@);
}

/// A preview payload describes the row it was asked for: it carries the
/// given mime type and recorded size, and its mode follows the kind, for
/// every kind and every bytes.
pub proof fn lemma_payload_keeps_row_metadata(
    kind: PreviewKind,
    mime: Seq<char>,
    bytes: Seq<u8>,
    size_bytes: i64,
)
    ensures
        preview_spec(kind, mime, bytes, size_bytes) matches Ok(p) ==> p.mime_type == mime
            && p.size_bytes == size_bytes,
        preview_spec(kind, mime, bytes, size_bytes) matches Ok(p) ==> (kind == PreviewKind::Image
            <==> p.mode == PreviewMode::Image) && (kind == PreviewKind::Text <==> p.mode
            == PreviewMode::Text),
        before_fetch_spec(kind, mime, size_bytes) matches Some(Ok(p)) ==> p.mime_type == mime
            && p.size_bytes == size_bytes && p.content.len() == 0,
{
}

} // verus!
