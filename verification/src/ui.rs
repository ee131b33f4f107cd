//! What the My Files pages show, decided from plain values.

use vstd::prelude::*;
use vstd::string::*;

use crate::preview::{FilePreviewPayload, PreviewMode};

verus! {

/// The unit in which a file size is shown in the table.
#[derive(Clone, Copy, Debug, PartialEq, Eq, Structural)]
pub enum SizeUnit {
    /// Whole bytes, `"{n} B"`.
    Bytes,
    /// Kibibytes with one decimal, `"{x:.1} KB"`.
    Kilobytes,
    /// Mebibytes with one decimal, `"{x:.1} MB"`.
    Megabytes,
}

/// The unit that a size of `bytes` is shown in: bytes below 1024, kibibytes
/// below 1024 * 1024, mebibytes above.
pub fn size_unit(bytes: i64) -> (unit: SizeUnit)
    ensures
        unit == (if bytes < 1024 {
            SizeUnit::Bytes
        } else if bytes < 1024 * 1024 {
            SizeUnit::Kilobytes
        } else {
            SizeUnit::Megabytes
        }),
{
    if bytes < 1024 {
        SizeUnit::Bytes
    } else if bytes < 1024 * 1024 {
        SizeUnit::Kilobytes
    } else {
        SizeUnit::Megabytes
    }
}

/// What the preview pane of the detail page shows.
#[derive(Debug)]
pub enum PreviewPaneView {
    /// An empty state with its message, and an optional line below it.
    EmptyState { message: String, note: Option<String> },
    /// The text, in a code block.
    Code(String),
}

/// The message of the pane for an image (the page shows images itself).
pub open spec fn image_pane_message() -> Seq<char> {
    "Open this file from the image preview above"@
}

/// The message of the pane for a file without in-app preview.
pub open spec fn unsupported_pane_message() -> Seq<char> {
    "No preview for this file type"@
}

/// The line below the message for a file without in-app preview.
pub open spec fn unsupported_pane_note() -> Seq<char> {
    "Open the file locally after downloading from the product that uploaded it."@
}

/// The preview pane for a payload: text in a code block, an image pointer for
/// images, and an empty state with a hint for unsupported files.
pub fn preview_pane_view(preview: &FilePreviewPayload) -> (v: PreviewPaneView)
    ensures
        preview.mode == PreviewMode::Text ==> (v matches PreviewPaneView::Code(text) && text@
            == preview.content@),
        preview.mode == PreviewMode::Image ==> (v matches PreviewPaneView::EmptyState {
            message,
            note,
        } && message@ == image_pane_message() && note is None),
        preview.mode == PreviewMode::Unsupported ==> (v matches PreviewPaneView::EmptyState {
            message,
            note,
        } && message@ == unsupported_pane_message() && (note matches Some(
            n) && n@ == unsupported_pane_note())),
{
    match preview.mode {
        PreviewMode::Image => PreviewPaneView::EmptyState {
            message: String::from_str("Open this file from the image preview above"),
            note: None,
        },
        PreviewMode::Text => PreviewPaneView::Code(preview.content.clone()),
        PreviewMode::Unsupported => PreviewPaneView::EmptyState {
            message: String::from_str("No preview for this file type"),
            note: Some(
                String::from_str(
                    "Open the file locally after downloading from the product that uploaded it.",
                ),
            ),
        },
    }
}

} // verus!
