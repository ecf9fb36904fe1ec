//! TikTok: pull URL handling, the page state documents and what they tell.
pub mod api;
pub mod response;
pub mod state;
pub mod streams;
