//! My Files library: the verified core behind the Meson "My Files" pages.
//!
//! The library decides what the pages and server functions answer: the wire
//! form of errors, the status badge of a file, the size guard and payload of a
//! preview, the rows of the list, and the path under which a file is opened.
//! Rendering, sessions, the database and the blob store stay with the host.

pub mod text;
pub mod error;
pub mod status;
pub mod codec;
pub mod preview;
pub mod files;
pub mod session;
pub mod paths;
pub mod ui;
pub mod permissions;
pub mod fixtures;
