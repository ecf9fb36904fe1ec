//! Bilibili: stream descriptions, their URLs and upload profiles.
pub mod answers;
pub mod api;
pub mod upload;
pub mod profile;
pub mod stream_info;
pub mod wbi;
