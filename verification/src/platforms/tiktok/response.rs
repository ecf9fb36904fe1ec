//! TikTok page state documents (the parts read as plain values).
use vstd::prelude::*;

use crate::json::Json;

verus! {

/// The page state: the live room, the room store and the user module, each
/// where the page has it.
#[derive(Debug, Default)]
pub struct SigiStateResponse {
    pub live_room: Option<LiveRoom>,
    pub room_store: Option<RoomStore>,
    pub user_module: Option<Json>,
}

#[derive(Debug, Default)]
pub struct RoomStore {
    pub room_info: Option<RoomInfo>,
}

/// A room as the page's room store describes it.
#[derive(Debug, Default)]
pub struct RoomInfo {
    pub room_id: Option<String>,
    pub title: Option<String>,
    pub status: Option<i32>,
    pub owner: Option<Owner>,
    pub stream_url: Option<StreamUrl>,
}

#[derive(Debug, Default)]
pub struct Owner {
    pub id: Option<String>,
    pub unique_id: Option<String>,
    pub nickname: Option<String>,
    pub avatar_thumb: Option<Json>,
}

/// The pull URLs of a room.
#[derive(Debug, Default)]
pub struct StreamUrl {
    pub rtmp_pull_url: Option<String>,
    pub hls_pull_url: Option<String>,
    pub flv_pull_url: Option<Json>,
}

#[derive(Debug, Default)]
pub struct LiveRoom {
    pub loading_state: LoadingState,
    pub need_login: bool,
    pub show_live_gate: bool,
    pub is_age_gate_room: bool,
    pub recommend_live_rooms: Vec<Json>,
    pub live_room_status: i64,
    pub live_room_user_info: LiveRoomUserInfo,
}

#[derive(Debug, Clone, Default)]
pub struct LoadingState {
    pub get_recommend_live: i64,
    pub get_user_info: i64,
    pub get_user_stat: i64,
}

#[derive(Debug, Clone, Default)]
pub struct LiveRoomUserInfo {
    pub user: User,
    pub stats: Stats,
    pub live_room: LiveRoom2,
}

#[derive(Debug, Clone, Default)]
pub struct User {
    pub avatar_larger: String,
    pub avatar_medium: String,
    pub avatar_thumb: String,
    pub id: String,
    pub nickname: String,
    pub sec_uid: String,
    pub secret: bool,
    pub unique_id: String,
    pub verified: bool,
    pub room_id: String,
    pub signature: String,
    pub status: i64,
    pub follow_status: i64,
}

#[derive(Debug, Clone, Default)]
pub struct Stats {
    pub following_count: i64,
    pub follower_count: i64,
}

#[derive(Debug, Clone, Default)]
pub struct LiveRoom2 {
    pub cover_url: String,
    pub square_cover_img: String,
    pub title: String,
    pub start_time: i64,
    pub status: i64,
    pub paid_event: PaidEvent,
    pub live_sub_only: i64,
    pub live_room_mode: i64,
    pub hash_tag_id: i64,
    pub game_tag_id: i64,
    pub live_room_stats: LiveRoomStats,
    pub stream_data: StreamData,
    pub stream_id: String,
    pub multi_stream_scene: i64,
    pub multi_stream_source: i64,
    pub hevc_stream_data: HevcStreamData,
}

#[derive(Debug, Clone, Default)]
pub struct PaidEvent {
    pub event_id: i64,
    pub paid_type: i64,
}

#[derive(Debug, Clone, Default)]
pub struct LiveRoomStats {
    pub enter_count: i64,
    pub user_count: i64,
}

#[derive(Debug, Clone, Default)]
pub struct StreamData {
    pub pull_data: PullData,
    pub push_data: PushData,
}

#[derive(Debug, Clone, Default)]
pub struct PullData {
    pub options: Options,
    pub stream_data: String,
}

#[derive(Debug, Clone, Default)]
pub struct Options {
    pub default_preview_quality: DefaultPreviewQuality,
    pub default_quality: DefaultQuality,
    pub qualities: Vec<Quality>,
    pub show_quality_button: bool,
}

#[derive(Debug, Clone, Default)]
pub struct DefaultPreviewQuality {
    pub icon_type: i64,
    pub level: i64,
    pub name: String,
    pub resolution: String,
    pub sdk_key: String,
    pub v_codec: String,
}

#[derive(Debug, Clone, Default)]
pub struct DefaultQuality {
    pub icon_type: i64,
    pub level: i64,
    pub name: String,
    pub resolution: String,
    pub sdk_key: String,
    pub v_codec: String,
}

#[derive(Debug, Clone, Default)]
pub struct Quality {
    pub icon_type: i64,
    pub level: i64,
    pub name: String,
    pub resolution: String,
    pub sdk_key: String,
    pub v_codec: String,
}

#[derive(Debug, Clone, Default)]
pub struct PushData {
    pub push_stream_level: i64,
    pub resolution_params: ResolutionParams,
    pub stream_data: String,
}

#[derive(Debug, Clone, Default)]
pub struct ResolutionParams {}

#[derive(Debug, Clone, Default)]
pub struct HevcStreamData {
    pub pull_data: PullData2,
    pub push_data: PushData2,
}

#[derive(Debug, Clone, Default)]
pub struct PullData2 {
    pub options: Options2,
    pub stream_data: String,
}

#[derive(Debug, Clone, Default)]
pub struct Options2 {
    pub default_preview_quality: DefaultPreviewQuality2,
    pub default_quality: DefaultQuality2,
    pub qualities: Vec<Quality2>,
    pub show_quality_button: bool,
}

#[derive(Debug, Clone, Default)]
pub struct DefaultPreviewQuality2 {
    pub icon_type: i64,
    pub level: i64,
    pub name: String,
    pub resolution: String,
    pub sdk_key: String,
    pub v_codec: String,
}

#[derive(Debug, Clone, Default)]
pub struct DefaultQuality2 {
    pub icon_type: i64,
    pub level: i64,
    pub name: String,
    pub resolution: String,
    pub sdk_key: String,
    pub v_codec: String,
}

#[derive(Debug, Clone, Default)]
pub struct Quality2 {
    pub icon_type: i64,
    pub level: i64,
    pub name: String,
    pub resolution: String,
    pub sdk_key: String,
    pub v_codec: String,
}

#[derive(Debug, Clone, Default)]
pub struct PushData2 {
    pub push_stream_level: i64,
    pub resolution_params: ResolutionParams2,
    pub stream_data: String,
}

#[derive(Debug, Clone, Default)]
pub struct ResolutionParams2 {}

#[derive(Debug, Default)]
pub struct CurrentRoom {
    pub loading_state: LoadingState2,
    pub room_info: Json,
    pub anchor_id: String,
    pub sec_anchor_id: String,
    pub anchor_unique_id: String,
    pub room_id: String,
    pub hot_live_room_info: Json,
    pub live_type: String,
    pub report_link_type: String,
    pub enter_room_with_ssr: bool,
    pub play_mode: String,
    pub is_guest_connection: bool,
    pub is_multi_guest_room: bool,
    pub show_live_chat: bool,
    pub enable_chat: bool,
    pub is_answer_room: bool,
    pub is_gate_room: bool,
    pub request_id: String,
    pub ntp_diff: i64,
    pub follow_status_map: FollowStatusMap,
}

#[derive(Debug, Clone, Default)]
pub struct LoadingState2 {
    pub enter_room: i64,
}

#[derive(Debug, Clone, Default)]
pub struct FollowStatusMap {}

} // verus!
