use recorder::json::Json;
use recorder::platforms::huya::extractor::LiveStreamExtractor;

fn obj(members: Vec<(&str, Json)>) -> Json {
    Json::Object(members.into_iter().map(|(k, v)| (k.to_string(), v)).collect())
}

fn s(t: &str) -> Json {
    Json::Str(t.to_string())
}

fn init(status: u64, streams: Vec<Json>) -> Json {
    obj(vec![(
        "roomInfo",
        obj(vec![
            (
                "tProfileInfo",
                obj(vec![("lUid", Json::PosInt(1234)), ("sNick", s("nick")), ("sAvatar180", s("https://a"))]),
            ),
            (
                "tLiveInfo",
                obj(vec![
                    ("sScreenshot", s("https://c")),
                    ("sIntroduction", s("title")),
                    ("lProfileRoom", Json::PosInt(99)),
                    (
                        "tLiveStreamInfo",
                        obj(vec![("vStreamInfo", obj(vec![("value", Json::Array(streams))]))]),
                    ),
                ]),
            ),
            ("eLiveStatus", Json::PosInt(status)),
        ]),
    )])
}

#[test]
fn profile_reads_user_and_room() {
    let (user, room) = LiveStreamExtractor::profile_of(&init(2, vec![]));
    assert_eq!((user.user_id.as_str(), user.user_name.as_str(), user.user_avatar.as_str()), ("1234", "nick", "https://a"));
    assert_eq!(room.platform, "huya");
    assert_eq!(room.room_id, "99");
    assert_eq!(room.room_title, "title");
    assert_eq!(room.room_cover, "https://c");
    assert!(room.status);
    let (_, room) = LiveStreamExtractor::profile_of(&init(1, vec![]));
    assert!(!room.status);
}

#[test]
fn missing_profile_fields_read_as_zero_or_empty() {
    let bare = obj(vec![(
        "roomInfo",
        obj(vec![("tProfileInfo", obj(vec![])), ("tLiveInfo", obj(vec![]))]),
    )]);
    let (user, room) = LiveStreamExtractor::profile_of(&bare);
    assert_eq!(user.user_id, "0");
    assert_eq!(user.user_name, "");
    assert_eq!(room.room_id, "0");
    assert!(!room.status);
}

#[test]
fn player_parts_are_built_from_a_stream_entry() {
    let entry = obj(vec![
        ("sHlsUrl", s("http://al.hls.huya.com/src")),
        ("sHlsAntiCode", s("wsSecret=x&fm=y")),
        ("lPresenterUid", Json::PosInt(42)),
        ("sStreamName", s("1234-abc")),
    ]);
    let parts = LiveStreamExtractor::pick_player_parts(&init(2, vec![entry]));
    assert_eq!(parts.url, "https://al.hls.huya.com/src/1234-abc.m3u8?wsSecret=x&fm=y");
    assert_eq!(parts.presenter_uid, "42");
    assert_eq!(parts.stream_name, "1234-abc");
    assert_eq!(parts.hls_anti_code, "wsSecret=x&fm=y");
}
