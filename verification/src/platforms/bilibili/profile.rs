//! The video profile submitted with an upload.
use vstd::prelude::*;

verus! {

/// An uploaded video's submission profile.
#[derive(Debug, Clone)]
pub struct Profile {
    pub videos: Vec<Video>,
    pub cover: String,
    pub cover43: Option<String>,
    pub title: String,
    /// 1 for original work, 2 for a repost.
    pub copyright: u8,
    pub tid: u64,
    pub tag: String,
    pub desc_format_id: u64,
    pub desc: String,
    pub recreate: i8,
    pub dynamic: String,
    pub interactive: u8,
    pub act_reserve_create: u8,
    pub no_disturbance: u8,
    pub no_reprint: u8,
    pub subtitle: Subtitle,
    pub dolby: u8,
    pub lossless_music: u8,
    pub up_selection_reply: bool,
    pub up_close_reply: bool,
    pub up_close_danmu: bool,
    pub web_os: u8,
}

/// Subtitle settings of a profile.
#[derive(Debug, Clone)]
pub struct Subtitle {
    pub open: u8,
    pub lan: String,
}

/// One uploaded part of a video.
#[derive(Debug, Clone)]
pub struct Video {
    pub title: String,
    pub filename: String,
    pub desc: String,
    pub cid: u64,
}

} // verus!
