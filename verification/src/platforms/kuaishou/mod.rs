//! Kuaishou: page and API text handling and the response documents.
pub mod api;
pub mod response;
