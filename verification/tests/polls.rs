use recorder::errors::RecorderError;
use recorder::media::{Codec, Format};
use recorder::platforms::bilibili::api::{BiliStream, RoomInfo as BiliRoom, UrlInfo};
use recorder::platforms::douyu::response::DouyuRoomInfo;
use recorder::platforms::kuaishou::api::{RoomInfo as KuaishouRoom, StreamInfo as KuaishouStream};
use recorder::platforms::polls::{
    bilibili_needs_user, bilibili_pull_stream, bilibili_room_poll, douyu_cdn_to_avoid,
    douyu_offline_poll, douyu_room_poll, huya_room_poll, kuaishou_pull_url, kuaishou_room_poll,
    kuaishou_room_poll_at, tiktok_room_poll_at, twitch_room_poll, twitch_same_recording,
};
use recorder::platforms::tiktok::api::RoomInfo as TikTokRoom;
use recorder::platforms::twitch::api::RoomInfo as TwitchRoom;
use recorder::{RoomInfo, UserInfo};

fn kuaishou_room(user_id: &str) -> KuaishouRoom {
    KuaishouRoom {
        live_status: true,
        room_title: "title".to_string(),
        room_cover_url: "cover".to_string(),
        user_id: user_id.to_string(),
        user_name: "name".to_string(),
        user_avatar: "avatar".to_string(),
    }
}

#[test]
fn kuaishou_poll_uses_the_time_as_live_id_and_skips_a_known_user() {
    let poll = kuaishou_room_poll_at(kuaishou_room("u1"), "u0", 1_700_000_000);
    assert!(poll.live);
    assert_eq!(poll.room_title, "title");
    assert_eq!(poll.room_cover, "cover");
    assert_eq!(poll.platform_live_id.as_deref(), Some("1700000000"));
    let user = poll.user.unwrap();
    assert_eq!((user.user_id.as_str(), user.user_name.as_str()), ("u1", "name"));

    let poll = kuaishou_room_poll_at(kuaishou_room("u1"), "u1", 5);
    assert!(poll.user.is_none());
    assert_eq!(poll.platform_live_id.as_deref(), Some("5"));

    let poll = kuaishou_room_poll(kuaishou_room("u1"), "u1");
    assert!(poll.platform_live_id.unwrap().parse::<i64>().is_ok());
}

#[test]
fn kuaishou_records_the_first_hls_url() {
    let s = |url: &str| KuaishouStream { url: url.to_string(), quality: String::new(), bitrate: None };
    let streams = vec![s("https://a/x.flv"), s("https://b/y.m3u8?k=1"), s("https://c/z.m3u8")];
    assert_eq!(kuaishou_pull_url(&streams).as_deref(), Some("https://b/y.m3u8?k=1"));
    assert_eq!(kuaishou_pull_url(&vec![s("https://a/x.flv")]), None);
    assert_eq!(kuaishou_pull_url(&vec![]), None);
}

#[test]
fn tiktok_poll_matches_kuaishou_shape() {
    let room = TikTokRoom {
        live_status: false,
        room_title: "t".to_string(),
        room_cover_url: "c".to_string(),
        user_id: "7".to_string(),
        user_name: "n".to_string(),
        user_avatar: "a".to_string(),
    };
    let poll = tiktok_room_poll_at(room, "", -3);
    assert!(!poll.live);
    assert_eq!(poll.platform_live_id.as_deref(), Some("-3"));
    assert_eq!(poll.user.unwrap().user_id, "7");
}

#[test]
fn twitch_poll_carries_the_broadcast_id() {
    let room = TwitchRoom {
        live: true,
        live_id: Some("broadcast-1".to_string()),
        title: "t".to_string(),
        cover: "c".to_string(),
        user_id: "42".to_string(),
        user_name: "ninja".to_string(),
        user_avatar: "a".to_string(),
    };
    let poll = twitch_room_poll(room, "42");
    assert!(poll.live);
    assert!(poll.user.is_none());
    assert_eq!(poll.platform_live_id.as_deref(), Some("broadcast-1"));
    assert!(twitch_same_recording("broadcast-1", "broadcast-1"));
    assert!(!twitch_same_recording("broadcast-1", "broadcast-2"));
    assert!(!twitch_same_recording("", ""));
}

#[test]
fn bilibili_poll_uses_the_start_time_while_live() {
    let room = |status: u8| BiliRoom {
        live_status: status,
        room_cover_url: "cover".to_string(),
        room_id: "10220184".to_string(),
        room_keyframe_url: String::new(),
        room_title: "title".to_string(),
        user_id: "9".to_string(),
        live_start_time: 1_758_715_459,
    };
    let poll = bilibili_room_poll(room(1), None);
    assert!(poll.live);
    assert_eq!(poll.platform_live_id.as_deref(), Some("1758715459"));
    let user = UserInfo { user_id: "9".to_string(), user_name: "n".to_string(), user_avatar: String::new() };
    let poll = bilibili_room_poll(room(2), Some(user));
    assert!(!poll.live);
    assert!(poll.platform_live_id.is_none());
    assert_eq!(poll.user.unwrap().user_name, "n");
    assert!(bilibili_needs_user("", "9"));
    assert!(!bilibili_needs_user("9", "9"));
}

#[test]
fn bilibili_pulls_from_the_first_host() {
    let mut stream = BiliStream {
        format: Format::TS,
        codec: Codec::Avc,
        base_url: "/live-bvc/index.m3u8".to_string(),
        url_info: vec![],
        drm: false,
        master_url: None,
    };
    assert!(matches!(bilibili_pull_stream(&stream, "1"), Err(RecorderError::NoStreamAvailable)));
    stream.url_info = vec![
        UrlInfo { host: "https://h1".to_string(), extra: "expires=1734567890&x=1".to_string() },
        UrlInfo { host: "https://h2".to_string(), extra: String::new() },
    ];
    let h = bilibili_pull_stream(&stream, "live-7").unwrap();
    assert_eq!(h.id, "live-7");
    assert_eq!(h.host, "https://h1");
    assert_eq!(h.base, "/live-bvc/index.m3u8");
    assert_eq!(h.extra, "expires=1734567890&x=1");
    assert_eq!(h.expire, 1734567890);
}

#[test]
fn douyu_polls_keep_metadata_when_offline() {
    let previous = RoomInfo {
        platform: "douyu".to_string(),
        room_id: "1".to_string(),
        room_title: "old title".to_string(),
        room_cover: "old cover".to_string(),
        status: true,
    };
    let poll = douyu_offline_poll(&previous);
    assert!(!poll.live);
    assert_eq!(poll.room_title, "old title");
    assert_eq!(poll.room_cover, "old cover");
    assert!(poll.user.is_none() && poll.platform_live_id.is_none());

    let room = DouyuRoomInfo {
        room_id: "9999".to_string(),
        room_thumb: "thumb".to_string(),
        room_name: "name".to_string(),
        room_status: "1".to_string(),
        start_time: "2024-01-02 03:04".to_string(),
        owner_name: "owner".to_string(),
        owner_uid: String::new(),
        avatar: "av".to_string(),
        online: 0,
    };
    let poll = douyu_room_poll(room.clone(), 9999);
    assert!(poll.live);
    assert_eq!(poll.room_title, "name");
    assert_eq!(poll.user.as_ref().unwrap().user_id, "");
    assert_eq!(poll.platform_live_id.as_deref(), Some("2024-01-02_03_04"));
    let mut offline = room;
    offline.room_status = "2".to_string();
    assert!(douyu_room_poll(offline, 9999).platform_live_id.is_none());
}

#[test]
fn douyu_avoids_a_used_cdn_only_after_a_started_recording() {
    let cdn = || Some("hw-h5".to_string());
    assert_eq!(douyu_cdn_to_avoid(true, true, "123", cdn()), cdn());
    assert_eq!(douyu_cdn_to_avoid(false, true, "123", cdn()), None);
    assert_eq!(douyu_cdn_to_avoid(true, false, "123", cdn()), None);
    assert_eq!(douyu_cdn_to_avoid(true, true, "", cdn()), None);
}

#[test]
fn huya_poll_takes_user_and_room() {
    let user = UserInfo { user_id: "1".to_string(), user_name: "n".to_string(), user_avatar: "a".to_string() };
    let room = RoomInfo {
        platform: "huya".to_string(),
        room_id: "2".to_string(),
        room_title: "t".to_string(),
        room_cover: "c".to_string(),
        status: true,
    };
    let poll = huya_room_poll(user, room);
    assert!(poll.live);
    assert_eq!(poll.user.unwrap().user_id, "1");
    assert!(poll.platform_live_id.is_none());
}
