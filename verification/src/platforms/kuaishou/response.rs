//! Kuaishou response documents.
use vstd::prelude::*;

verus! {

/// The live stream data found in a Kuaishou page.
#[derive(Debug, Clone, Default)]
pub struct LiveStreamResponse {
    pub live_stream: Option<LiveStream>,
    pub author: Option<Author>,
    pub config: Option<Config>,
    pub error_type: Option<ErrorType>,
}

#[derive(Debug, Clone, Default)]
pub struct LiveStream {
    pub play_urls: Option<PlayUrls>,
    pub cover_url: Option<String>,
    pub caption: Option<String>,
}

#[derive(Debug, Clone, Default)]
pub struct Config {
    pub caption: Option<String>,
}

#[derive(Debug, Clone, Default)]
pub struct PlayUrls {
    pub h264: Option<H264>,
    pub h265: Option<H264>,
}

#[derive(Debug, Clone, Default)]
pub struct H264 {
    pub adaptation_set: Option<AdaptationSet>,
}

#[derive(Debug, Clone, Default)]
pub struct AdaptationSet {
    pub representation: Vec<Representation>,
}

#[derive(Debug, Clone, Default)]
pub struct Representation {
    pub url: String,
    pub name: Option<String>,
    pub quality_type: Option<String>,
    pub bitrate: Option<i64>,
}

#[derive(Debug, Clone, Default)]
pub struct Author {
    pub name: String,
    pub id: String,
    pub head_url: Option<String>,
}

#[derive(Debug, Clone, Default)]
pub struct ErrorType {
    pub title: String,
    pub content: String,
}

/// The mobile API's answer.
#[derive(Debug, Clone, Default)]
pub struct MobileApiResponse {
    pub result: Option<i64>,
    pub error_msg: Option<String>,
    pub live_stream: Option<MobileLiveStream>,
}

#[derive(Debug, Clone, Default)]
pub struct MobileLiveStream {
    pub living: bool,
    pub hls_play_url: Option<String>,
    pub play_urls: Option<Vec<MobilePlayUrl>>,
    pub multi_resolution_play_urls: Option<Vec<MultiResolutionPlayUrl>>,
    pub multi_resolution_hls_play_urls: Option<Vec<MultiResolutionHls>>,
    pub user: Option<MobileUser>,
    pub caption: Option<String>,
    pub cover_url: Option<String>,
}

#[derive(Debug, Clone, Default)]
pub struct MobilePlayUrl {
    pub url: String,
    pub quality: Option<String>,
}

#[derive(Debug, Clone, Default)]
pub struct MultiResolutionPlayUrl {
    pub urls: Vec<String>,
    pub level: Option<String>,
}

#[derive(Debug, Clone, Default)]
pub struct MultiResolutionHls {
    pub urls: Vec<String>,
    pub level: Option<String>,
}

#[derive(Debug, Clone, Default)]
pub struct MobileUser {
    pub user_name: String,
    pub user_id: String,
}

} // verus!
