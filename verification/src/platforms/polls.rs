//! What each platform's answers mean to the recording loop: the room poll
//! that a room answer gives, the stream that a recording pulls, and the
//! platform-specific choices around them.
use vstd::prelude::*;

use crate::errors::RecorderError;
use crate::media::HlsStream;
use crate::outside::{now_unix_seconds, opt_view};
use crate::platforms::bilibili::api::{query_expiry, BiliStream};
use crate::platforms::common::RoomPoll;
use crate::platforms::douyu::response::{live_id_of, platform_live_id, room_is_live, room_status_live, DouyuRoomInfo};
use crate::platforms::{kuaishou, tiktok, twitch};
use crate::text::{chars_of, contains, contains_str, eq_str, push_signed_decimal, signed_decimal, string_of};
use crate::UserInfo;

verus! {

/// A user as values: id, name and avatar.
pub open spec fn user_view(u: UserInfo) -> (Seq<char>, Seq<char>, Seq<char>) {
    (u.user_id@, u.user_name@, u.user_avatar@)
}

pub open spec fn opt_user_view(u: Option<UserInfo>) -> Option<(Seq<char>, Seq<char>, Seq<char>)> {
    match u {
        Some(u) => Some(user_view(u)),
        None => None,
    }
}

/// A room poll as values: live, title, cover, user, platform live id.
pub open spec fn poll_view(p: RoomPoll) -> (
    bool,
    Seq<char>,
    Seq<char>,
    Option<(Seq<char>, Seq<char>, Seq<char>)>,
    Option<Seq<char>>,
) {
    (p.live, p.room_title@, p.room_cover@, opt_user_view(p.user), opt_view(p.platform_live_id))
}

/// The user to store after a poll: the polled one, unless the cached user
/// already has its id (then the cached info is kept as it is).
pub open spec fn changed_user(cached_user_id: Seq<char>, user: (Seq<char>, Seq<char>, Seq<char>)) -> Option<
    (Seq<char>, Seq<char>, Seq<char>),
> {
    if cached_user_id == user.0 {
        None
    } else {
        Some(user)
    }
}

fn user_if_changed(cached_user_id: &str, user: UserInfo) -> (r: Option<UserInfo>)
    ensures
        opt_user_view(r) == changed_user(cached_user_id@, user_view(user)),
{
    let id = chars_of(user.user_id.as_str());
    if eq_str(&id, cached_user_id) {
        None
    } else {
        Some(user)
    }
}

fn decimal_time(now: i64) -> (r: String)
    ensures
        r@ == signed_decimal(now as int),
{
    let mut digits: Vec<char> = Vec::new();
    push_signed_decimal(&mut digits, now);
    string_of(&digits)
}

// ---------------------------------------------------------------------------
// Kuaishou and TikTok: no persistent live id, a fresh time stands in for it
// ---------------------------------------------------------------------------

/// The poll that a Kuaishou room answer gives at `now` (Unix seconds): the
/// room's status and metadata, its user when it is not the cached one, and
/// the time as the platform live id, since Kuaishou has no lasting one.
pub fn kuaishou_room_poll_at(room: kuaishou::api::RoomInfo, cached_user_id: &str, now: i64) -> (r: RoomPoll)
    ensures
        poll_view(r) == (
            room.live_status,
            room.room_title@,
            room.room_cover_url@,
            changed_user(cached_user_id@, (room.user_id@, room.user_name@, room.user_avatar@)),
            Some(signed_decimal(now as int)),
        ),
{
    let user = UserInfo { user_id: room.user_id, user_name: room.user_name, user_avatar: room.user_avatar };
    RoomPoll {
        live: room.live_status,
        room_title: room.room_title,
        room_cover: room.room_cover_url,
        user: user_if_changed(cached_user_id, user),
        platform_live_id: Some(decimal_time(now)),
    }
}

/// `kuaishou_room_poll_at` at the current time.
pub fn kuaishou_room_poll(room: kuaishou::api::RoomInfo, cached_user_id: &str) -> (r: RoomPoll)
    ensures
        exists|now: i64| poll_view(r) == (
            room.live_status,
            room.room_title@,
            room.room_cover_url@,
            changed_user(cached_user_id@, (room.user_id@, room.user_name@, room.user_avatar@)),
            Some(#[trigger] signed_decimal(now as int)),
        ),
{
    kuaishou_room_poll_at(room, cached_user_id, now_unix_seconds())
}

/// The stream a Kuaishou recording pulls: the first listed URL that is an
/// HLS playlist (contains `.m3u8`).
pub open spec fn first_hls(urls: Seq<Seq<char>>) -> Option<Seq<char>>
    decreases urls.len(),
{
    if urls.len() == 0 {
        None
    } else if contains(urls[0], ".m3u8"@) {
        Some(urls[0])
    } else {
        first_hls(urls.drop_first())
    }
}

pub open spec fn stream_urls(streams: Seq<kuaishou::api::StreamInfo>) -> Seq<Seq<char>> {
    streams.map_values(|s: kuaishou::api::StreamInfo| s.url@)
}

pub fn kuaishou_pull_url(streams: &Vec<kuaishou::api::StreamInfo>) -> (r: Option<String>)
    ensures
        opt_view(r) == first_hls(stream_urls(streams@)),
{
    let ghost urls = stream_urls(streams@);
    let mut i: usize = 0;
    assert(urls.subrange(0, urls.len() as int) =~= urls);
    while i < streams.len()
        invariant
            i <= streams.len(),
            urls == stream_urls(streams@),
            first_hls(urls) == first_hls(urls.subrange(i as int, urls.len() as int)),
        decreases streams.len() - i,
    {
        let ghost rest = urls.subrange(i as int, urls.len() as int);
        assert(rest[0] == streams@[i as int].url@);
        let u = chars_of(streams[i].url.as_str());
        if contains_str(&u, ".m3u8") {
            return Some(streams[i].url.clone());
        }
        assert(rest.drop_first() =~= urls.subrange(i + 1, urls.len() as int));
        i += 1;
    }
    None
}

/// The poll that a TikTok room answer gives at `now` (Unix seconds), built
/// as for Kuaishou: TikTok has no lasting live id either.
pub fn tiktok_room_poll_at(room: tiktok::api::RoomInfo, cached_user_id: &str, now: i64) -> (r: RoomPoll)
    ensures
        poll_view(r) == (
            room.live_status,
            room.room_title@,
            room.room_cover_url@,
            changed_user(cached_user_id@, (room.user_id@, room.user_name@, room.user_avatar@)),
            Some(signed_decimal(now as int)),
        ),
{
    let user = UserInfo { user_id: room.user_id, user_name: room.user_name, user_avatar: room.user_avatar };
    RoomPoll {
        live: room.live_status,
        room_title: room.room_title,
        room_cover: room.room_cover_url,
        user: user_if_changed(cached_user_id, user),
        platform_live_id: Some(decimal_time(now)),
    }
}

/// `tiktok_room_poll_at` at the current time.
pub fn tiktok_room_poll(room: tiktok::api::RoomInfo, cached_user_id: &str) -> (r: RoomPoll)
    ensures
        exists|now: i64| poll_view(r) == (
            room.live_status,
            room.room_title@,
            room.room_cover_url@,
            changed_user(cached_user_id@, (room.user_id@, room.user_name@, room.user_avatar@)),
            Some(#[trigger] signed_decimal(now as int)),
        ),
{
    tiktok_room_poll_at(room, cached_user_id, now_unix_seconds())
}

// ---------------------------------------------------------------------------
// Twitch
// ---------------------------------------------------------------------------

/// The poll that a Twitch channel answer gives: the broadcast id is the
/// platform live id.
pub fn twitch_room_poll(room: twitch::api::RoomInfo, cached_user_id: &str) -> (r: RoomPoll)
    ensures
        poll_view(r) == (
            room.live,
            room.title@,
            room.cover@,
            changed_user(cached_user_id@, (room.user_id@, room.user_name@, room.user_avatar@)),
            opt_view(room.live_id),
        ),
{
    let user = UserInfo { user_id: room.user_id, user_name: room.user_name, user_avatar: room.user_avatar };
    RoomPoll {
        live: room.live,
        room_title: room.title,
        room_cover: room.cover,
        user: user_if_changed(cached_user_id, user),
        platform_live_id: room.live_id,
    }
}

/// Whether a Twitch recording resumes the same recording: the broadcast it
/// was recording is known and is still the live one.
pub fn twitch_same_recording(recording_live_id: &str, platform_live_id: &str) -> (r: bool)
    ensures
        r == (recording_live_id@.len() > 0 && recording_live_id@ == platform_live_id@),
{
    let a = chars_of(recording_live_id);
    a.len() > 0 && eq_str(&a, platform_live_id)
}

// ---------------------------------------------------------------------------
// Bilibili
// ---------------------------------------------------------------------------

/// The poll that a Bilibili room answer gives (with the user already looked
/// up when needed): live when the status is 1, and then the live's start
/// time is the platform live id.
pub fn bilibili_room_poll(room: crate::platforms::bilibili::api::RoomInfo, user: Option<UserInfo>) -> (r:
    RoomPoll)
    ensures
        poll_view(r) == (
            room.live_status == 1,
            room.room_title@,
            room.room_cover_url@,
            opt_user_view(user),
            if room.live_status == 1 {
                Some(signed_decimal(room.live_start_time as int))
            } else {
                None
            },
        ),
{
    let live = room.live_status == 1;
    RoomPoll {
        live,
        room_title: room.room_title,
        room_cover: room.room_cover_url,
        user,
        platform_live_id: if live {
            Some(decimal_time(room.live_start_time))
        } else {
            None
        },
    }
}

/// Whether a Bilibili poll looks the room's user up: only when the cached
/// user is another one.
pub fn bilibili_needs_user(cached_user_id: &str, room_user_id: &str) -> (r: bool)
    ensures
        r == (cached_user_id@ != room_user_id@),
{
    let a = chars_of(cached_user_id);
    !eq_str(&a, room_user_id)
}

/// The HLS stream a Bilibili recording pulls under `live_id`: the stream on
/// its first host, expiring when that host's signature does; no stream when
/// no host is listed.
pub fn bilibili_pull_stream(stream: &BiliStream, live_id: &str) -> (r: Result<HlsStream, RecorderError>)
    ensures
        stream.url_info.len() == 0 ==> r matches Err(RecorderError::NoStreamAvailable),
        stream.url_info.len() > 0 ==> (r matches Ok(h) && {
            let first = stream.url_info@[0];
            &&& h.id@ == live_id@
            &&& h.host@ == first.host@
            &&& h.base@ == stream.base_url@
            &&& h.extra@ == first.extra@
            &&& h.format == stream.format
            &&& h.codec == stream.codec
            &&& h.expire == query_expiry(first.extra@)
        }),
{
    if stream.url_info.len() == 0 {
        return Err(RecorderError::NoStreamAvailable);
    }
    let first = &stream.url_info[0];
    Ok(
        HlsStream::new(
            live_id.to_string(),
            first.host.clone(),
            stream.base_url.clone(),
            first.extra.clone(),
            stream.format,
            stream.codec,
            first.get_expire(),
        ),
    )
}

// ---------------------------------------------------------------------------
// Douyu
// ---------------------------------------------------------------------------

/// The poll for a Douyu room that RoomApi reports offline: not live, with the
/// title and cover of the previous poll kept.
pub fn douyu_offline_poll(previous: &crate::RoomInfo) -> (r: RoomPoll)
    ensures
        poll_view(r) == (false, previous.room_title@, previous.room_cover@, None::<(Seq<char>, Seq<char>, Seq<char>)>, None::<Seq<char>>),
{
    RoomPoll {
        live: false,
        room_title: previous.room_title.clone(),
        room_cover: previous.room_cover.clone(),
        user: None,
        platform_live_id: None,
    }
}

/// The poll that a Douyu room answer gives for the numeric room
/// `room_id`: the owner as the user (RoomApi may leave the owner's uid
/// empty; it stays empty), and while live the path-safe live id.
pub fn douyu_room_poll(room: DouyuRoomInfo, room_id: u64) -> (r: RoomPoll)
    ensures
        poll_view(r) == (
            room_status_live(room.room_status@, room.online),
            room.room_name@,
            room.room_thumb@,
            Some((room.owner_uid@, room.owner_name@, room.avatar@)),
            if room_status_live(room.room_status@, room.online) {
                Some(live_id_of(room.start_time@, room.room_id@, room_id))
            } else {
                None
            },
        ),
{
    let live = room_is_live(&room);
    let platform_live_id = if live {
        Some(platform_live_id(&room, room_id))
    } else {
        None
    };
    RoomPoll {
        live,
        room_title: room.room_name,
        room_cover: room.room_thumb,
        user: Some(UserInfo { user_id: room.owner_uid, user_name: room.owner_name, user_avatar: room.avatar }),
        platform_live_id,
    }
}

/// The CDN that the next Douyu attempt avoids when a recording attempt is
/// cleared: the one just used, when the attempt ended while recording was
/// enabled, the room was live and a recording had started (each signed URL
/// is used once); otherwise none is set.
pub fn douyu_cdn_to_avoid(enabled: bool, live: bool, live_id: &str, selected: Option<String>) -> (r: Option<
    String,
>)
    ensures
        (enabled && live && live_id@.len() > 0) ==> opt_view(r) == opt_view(selected),
        !(enabled && live && live_id@.len() > 0) ==> r is None,
{
    if enabled && live && !live_id.is_empty() {
        selected
    } else {
        None
    }
}

// ---------------------------------------------------------------------------
// Huya
// ---------------------------------------------------------------------------

/// The poll that a Huya page gives: its room and user; the live id comes
/// with the stream, not with the room.
pub fn huya_room_poll(user: UserInfo, room: crate::RoomInfo) -> (r: RoomPoll)
    ensures
        poll_view(r) == (room.status, room.room_title@, room.room_cover@, Some(user_view(user)), None::<Seq<char>>),
{
    RoomPoll {
        live: room.status,
        room_title: room.room_title,
        room_cover: room.room_cover,
        user: Some(user),
        platform_live_id: None,
    }
}

} // verus!
