//! Huya: page data extraction, stream URL signing and URL resolution.
pub mod api;
pub mod client;
pub mod extractor;
pub mod url_builder;
