//! Douyu: room status, stream URL signing and response interpretation.
pub mod api;
pub mod decode;
pub mod response;
pub mod selection;
