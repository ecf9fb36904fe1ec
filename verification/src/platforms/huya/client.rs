//! Values reported by Huya's pages.
use vstd::prelude::*;

verus! {

#[derive(Clone, Debug)]
pub struct HuyaUserInfo {
    pub user_id: i64,
    pub user_name: String,
    pub user_sign: String,
    pub user_avatar_url: String,
}

#[derive(Clone, Debug)]
pub struct StreamInfo {
    pub stream_url: String,
    pub stream_type: String,
    pub stream_quality: String,
    pub stream_codec: String,
}

} // verus!
