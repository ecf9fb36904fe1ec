use recorder::errors::RecorderError;
use recorder::json::Json;
use recorder::platforms::tiktok::response::LiveRoom;
use recorder::platforms::tiktok::state::{
    extract_first_url, find_avatar_url, find_cover_url, find_current_user_info, find_m3u8_in_value,
    get_stream_data_text, get_string_field, looks_like_room_info, looks_like_stream_url, page_step,
    rehydration_texts, room_info_from_state, sigi_state_texts, user_info_from_state, user_page_result,
    PageStep,
};
use recorder::platforms::tiktok::streams::{
    extract_stream_candidates, fallback_stream, pull_stream_info, sdk_params_texts, stream_attempts,
};
use recorder::outside::parse_json;

fn json(text: &str) -> Json {
    parse_json(text).unwrap()
}

fn api_error(e: RecorderError) -> String {
    match e {
        RecorderError::ApiError { error } => error,
        _ => panic!("not an API error"),
    }
}

#[test]
fn first_url_reads_strings_lists_and_objects() {
    assert_eq!(extract_first_url(&json(r#""u""#)).as_deref(), Some("u"));
    assert_eq!(extract_first_url(&json(r#"["a","b"]"#)).as_deref(), Some("a"));
    assert_eq!(extract_first_url(&json(r#"{"url":"x","url_list":["y"]}"#)).as_deref(), Some("x"));
    assert_eq!(extract_first_url(&json(r#"{"urlList":["b"],"url_list":["a"]}"#)).as_deref(), Some("a"));
    assert_eq!(extract_first_url(&json(r#"{"url_list":"no","urls":["c"]}"#)), None);
    assert_eq!(extract_first_url(&json(r#"{"urls":["c"]}"#)).as_deref(), Some("c"));
    assert_eq!(extract_first_url(&json("12")), None);
}

#[test]
fn cover_is_found_by_key_then_by_name_then_in_children() {
    let state = json(r#"{"a":{"liveRoomCover":" //img.test/c.png"},"b":{"cover":"https://other"}}"#);
    assert_eq!(find_cover_url(&state).as_deref(), Some("https://img.test/c.png"));
    let named = json(r#"{"myCoverPic":{"url_list":["https://n"]},"zz":{"cover":"https://k"}}"#);
    assert_eq!(find_cover_url(&named).as_deref(), Some("https://n"));
    let keyed_first = json(r#"{"bigcover":"https://named","shareImage":"https://keyed"}"#);
    assert_eq!(find_cover_url(&keyed_first).as_deref(), Some("https://keyed"));
    assert_eq!(find_cover_url(&json(r#"{"a":[1,{"x":2}]}"#)), None);
}

#[test]
fn avatar_is_found_by_key_only() {
    let state = json(r#"{"user":{"avatarThumb":{"urlList":["https://u1"]}}}"#);
    assert_eq!(find_avatar_url(&state).as_deref(), Some("https://u1"));
    let named_only = json(r#"{"myAvatarPic":"https://x"}"#);
    assert_eq!(find_avatar_url(&named_only), None);
    let order = json(r#"{"avatar":"https://third","avatar_thumb":"https://second"}"#);
    assert_eq!(find_avatar_url(&order).as_deref(), Some("https://second"));
}

#[test]
fn playlist_urls_are_found_unescaped() {
    let state = json(r#"{"a":{"b":["x","http:\\/\\/cdn.test\\/live.m3u8"]}}"#);
    assert_eq!(find_m3u8_in_value(&state).as_deref(), Some("http://cdn.test/live.m3u8"));
    assert_eq!(find_m3u8_in_value(&json(r#"{"a":"rtmp://x/live.m3u8"}"#)), None);
    assert_eq!(find_m3u8_in_value(&json(r#"{"a":"https://x/live.flv"}"#)), None);
}

#[test]
fn string_fields_read_text_and_numbers() {
    let v = json(r#"{"a":"","b":123,"c":"x","d":-5,"e":1.5,"f":true}"#);
    assert_eq!(get_string_field(&v, &["a", "b"]).as_deref(), Some("123"));
    assert_eq!(get_string_field(&v, &["f", "c"]).as_deref(), Some("x"));
    assert_eq!(get_string_field(&v, &["d"]).as_deref(), Some("-5"));
    assert_eq!(get_string_field(&v, &["e"]).as_deref(), Some("1.5"));
    assert_eq!(get_string_field(&v, &["zz"]), None);
    assert_eq!(get_string_field(&json("[1]"), &["a"]), None);
}

#[test]
fn current_user_comes_from_the_app_context_first() {
    let state = json(
        r#"{"AppContext":{"appContext":{"user":{"uid":"42","uniqueId":"alice","avatarThumb":"https://a"}}}}"#,
    );
    let u = find_current_user_info(&state).unwrap();
    assert_eq!((u.user_id.as_str(), u.user_name.as_str(), u.user_avatar.as_str()), ("42", "alice", "https://a"));
    let unnamed = json(r#"{"AppContext":{"appContext":{"user":{"id":7}}}}"#);
    let u = find_current_user_info(&unnamed).unwrap();
    assert_eq!((u.user_id.as_str(), u.user_name.as_str(), u.user_avatar.as_str()), ("7", "7", ""));
}

#[test]
fn current_user_comes_from_the_rehydration_scopes() {
    let state = json(
        r#"{"__DEFAULT_SCOPE__":{"webapp.app-context":{"user":{"secUid":"S","nickName":"N","uid":"1"}}}}"#,
    );
    let u = find_current_user_info(&state).unwrap();
    assert_eq!((u.user_id.as_str(), u.user_name.as_str()), ("S", "N"));
    let no_id = json(r#"{"scope":{"user":{"nickName":"N"}}}"#);
    assert!(find_current_user_info(&no_id).is_none());
}

#[test]
fn user_module_is_the_last_resort() {
    let state = json(r#"{"UserModule":{"users":{"bob":{"id":"9","uniqueId":"bob"}}}}"#);
    let u = user_info_from_state(&state).unwrap();
    assert_eq!((u.user_id.as_str(), u.user_name.as_str()), ("9", "bob"));
    let nameless = json(r#"{"UserModule":{"users":{"bob":{"id":"9"}}}}"#);
    assert_eq!(api_error(user_info_from_state(&nameless).unwrap_err()), "Could not find user info in TikTok page");
}

#[test]
fn home_page_errors_come_first() {
    let state = json(r#"{"UserModule":{"users":{"bob":{"id":"9","uniqueId":"bob"}}}}"#);
    let blocked = "x We regret to inform you that we have discontinued operating TikTok y";
    assert_eq!(
        api_error(user_page_result(blocked, Some(&state)).unwrap_err()),
        "TikTok is not available in this region. Please use a different proxy."
    );
    assert!(api_error(user_page_result("page", None).unwrap_err()).starts_with("Failed to extract TikTok state"));
    assert_eq!(user_page_result("page", Some(&state)).unwrap().user_id, "9");
}

fn stream_data() -> Json {
    json(
        r#"{"data":{
            "hd":{"main":{"hls":"https://h/hd.m3u8","flv":"https://f/hd.flv","sdk_params":"{\"vbitrate\":1000,\"resolution\":\"1280x720\",\"VCodec\":\"h264\"}"}},
            "ld":{"main":{"flv":"https://f/ld.flv?a=1","sdk_params":"{\"vbitrate\":\"2000\",\"resolution\":\"bad\"}"}},
            "origin":{"main":{"hls":"https://h/o.m3u8?codec=h265","sdk_params":"{\"vbitrate\":1000,\"resolution\":\"1920x1080\"}"}},
            "sd":{"main":{"sdk_params":"{}"}},
            "uhd":{"other":1}
        }}"#,
    )
}

#[test]
fn candidates_are_read_and_ordered_by_bitrate_then_size() {
    let data = stream_data();
    let texts = sdk_params_texts(&data);
    assert_eq!(texts.len(), 5);
    assert_eq!(texts[3], "{}");
    assert_eq!(texts[4], "{}");
    let cands = extract_stream_candidates(&data);
    let levels: Vec<&str> = cands.iter().map(|c| c.level.as_str()).collect();
    assert_eq!(levels, vec!["ld", "origin", "hd"]);
    assert_eq!(cands[0].bitrate, 2000);
    assert_eq!((cands[0].width, cands[0].height), (0, 0));
    assert_eq!(cands[0].flv_url.as_deref(), Some("https://f/ld.flv?a=1"));
    assert_eq!((cands[1].width, cands[1].height), (1920, 1080));
    assert_eq!(cands[1].hls_url.as_deref(), Some("https://h/o.m3u8?codec=h265"));
    assert_eq!(cands[2].hls_url.as_deref(), Some("https://h/hd.m3u8?codec=h264"));
    assert_eq!(cands[2].flv_url.as_deref(), Some("https://f/hd.flv?codec=h264"));
}

#[test]
fn attempts_follow_the_level_order() {
    let data = stream_data();
    let cands = extract_stream_candidates(&data);
    let attempts = stream_attempts(&cands);
    let urls: Vec<&str> = attempts.iter().map(|a| a.0.as_str()).collect();
    assert_eq!(
        urls,
        vec!["https://h/o.m3u8?codec=h265", "https://f/ld.flv?a=1", "https://h/hd.m3u8?codec=h264", "https://f/hd.flv?codec=h264"]
    );
    assert_eq!(attempts[2].1.rtmp_url.as_deref(), Some("https://f/hd.flv?codec=h264"));
    assert_eq!(attempts[3].1.hls_url, None);
    assert_eq!(attempts[3].1.level, "hd");
}

#[test]
fn stream_data_text_is_read_from_the_live_room() {
    let info = json(r#"{"liveRoom":{"streamData":{"pull_data":{"stream_data":"{}"}}}}"#);
    assert_eq!(get_stream_data_text(&info).as_deref(), Some("{}"));
    assert_eq!(get_stream_data_text(&json("{}")), None);
}

#[test]
fn pull_urls_need_an_answering_playlist_or_rtmp() {
    let info = pull_stream_info(Some("h".to_string()), None, true).unwrap();
    assert_eq!(info.hls_url.as_deref(), Some("h"));
    assert_eq!(info.level, "");
    let info = pull_stream_info(Some("h".to_string()), Some("r".to_string()), false).unwrap();
    assert_eq!((info.hls_url, info.rtmp_url.as_deref()), (None, Some("r")));
    assert_eq!(
        api_error(pull_stream_info(Some("h".to_string()), None, false).unwrap_err()),
        "No available stream provided"
    );
}

#[test]
fn last_resort_streams_come_from_state_then_page() {
    let state = json(r#"{"x":"https://a/b.m3u8"}"#);
    assert_eq!(fallback_stream(&state, "").unwrap().hls_url.as_deref(), Some("https://a/b.m3u8"));
    let page = r#"x "http://cdn.example/live\.m3u8" y"#;
    assert_eq!(fallback_stream(&json("{}"), page).unwrap().hls_url.as_deref(), Some(r#"http://cdn.example/live\.m3u8"#));
    assert_eq!(
        api_error(fallback_stream(&json("{}"), "none").unwrap_err()),
        "Failed to extract stream URL from page data"
    );
}

#[test]
fn page_steps_retry_twice_then_fail() {
    assert!(matches!(page_step("ok", 0, true, true), PageStep::Read));
    assert!(matches!(page_step("UNEXPECTED_EOF_WHILE_READING", 1, true, false), PageStep::Retry));
    match page_step("UNEXPECTED_EOF_WHILE_READING", 2, true, false) {
        PageStep::Fail(e) => assert_eq!(api_error(e), "Failed to load page after 3 attempts"),
        _ => panic!("expected a failure"),
    }
    match page_step("<html>", 2, false, true) {
        PageStep::Fail(e) => assert!(api_error(e).ends_with("HTML: <html>")),
        _ => panic!("expected a failure"),
    }
    match page_step("<html>", 2, false, false) {
        PageStep::Fail(e) => assert_eq!(api_error(e), "Failed to extract page state JSON"),
        _ => panic!("expected a failure"),
    }
    let blocked = "We regret to inform you that we have discontinued operating TikTok";
    assert!(matches!(page_step(blocked, 0, true, false), PageStep::Read));
    assert!(matches!(page_step(blocked, 0, true, true), PageStep::Fail(_)));
}

#[test]
fn rooms_without_a_live_room_are_not_started() {
    let r = room_info_from_state(None, &json("{}"));
    assert!(!r.live_status);
    assert_eq!(r.room_title, "TikTok Live Not Started");
    assert_eq!(r.user_name, "TikTok Live Not Started");
    assert_eq!(r.room_cover_url, "");
}

#[test]
fn live_rooms_take_cover_and_avatar_from_the_state() {
    let mut lr = LiveRoom::default();
    lr.live_room_user_info.user.id = "1".to_string();
    lr.live_room_user_info.user.nickname = "nick".to_string();
    lr.live_room_user_info.live_room.title = "title".to_string();
    let state = json(r#"{"u":{"avatarLarger":"x","avatarUrl":"https://av"}}"#);
    let r = room_info_from_state(Some(&lr), &state);
    assert!(r.live_status);
    assert_eq!(r.user_avatar, "https://av");
    assert_eq!(r.room_cover_url, "https://av");
    assert_eq!(r.room_title, "title");
    lr.live_room_user_info.user.avatar_thumb = "https://thumb".to_string();
    let state = json(r#"{"coverUrl":"https://cov"}"#);
    let r = room_info_from_state(Some(&lr), &state);
    assert_eq!((r.user_avatar.as_str(), r.room_cover_url.as_str()), ("https://thumb", "https://cov"));
}

#[test]
fn room_and_stream_objects_are_recognised() {
    assert!(looks_like_room_info(&json(r#"{"status":2,"owner":{},"title":"t"}"#)));
    assert!(looks_like_room_info(&json(r#"{"live_status":2,"stream_url":{},"room_id":"1"}"#)));
    assert!(!looks_like_room_info(&json(r#"{"status":2,"title":"t"}"#)));
    assert!(!looks_like_room_info(&json(r#"{"owner":{},"title":"t"}"#)));
    assert!(looks_like_stream_url(&json(r#"{"flvPullUrl":{}}"#)));
    assert!(!looks_like_stream_url(&json(r#"{"url":"x"}"#)));
}

#[test]
fn state_texts_come_from_the_script_then_the_markers() {
    let html = r#"<script id="SIGI_STATE" type="application/json">{"a":1}</script> SIGI_STATE = [2]"#;
    assert_eq!(sigi_state_texts(html), vec![r#"{"a":1}"#.to_string(), r#"{"a":1}</script> SIGI_STATE = [2]"#.to_string(), "[2]".to_string()]);
    let home = r#"window.__UNIVERSAL_DATA_FOR_REHYDRATION__ = x"#;
    assert!(rehydration_texts(home).is_empty());
}
