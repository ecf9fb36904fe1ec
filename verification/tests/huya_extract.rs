use recorder::json::Json;
use recorder::outside::parse_json;
use recorder::platforms::huya::extractor::{regex_escape, HuyaClientError, LiveStreamExtractor};

const ENTRY: &str = "{\"sHlsUrl\": 'http://al.hls.huya.com/src', \"sHlsAntiCode\": 'wsSecret=x&wsTime=y', \"lPresenterUid\": 123, \"sStreamName\": '123-456'}";

fn page(status: u8, entries: &str) -> String {
    format!(
        "<script>var a = 1;\nwindow.HNF_GLOBAL_INIT = {{\"roomInfo\": {{\"eLiveStatus\": {status}, \
\"tProfileInfo\": {{\"lUid\": 123, \"sNick\": 'nick', \"sAvatar180\": 'https://a/a.jpg'}}, \
\"tLiveInfo\": {{\"lProfileRoom\": 456, \"sIntroduction\": 'title', \"sScreenshot\": 'https://s/s.jpg', \
\"tLiveStreamInfo\": {{\"vStreamInfo\": {{\"value\": [{entries}]}}}}}}}}}};\n</script>"
    )
}

fn init_of(page: &str) -> Json {
    let text = LiveStreamExtractor::variable_object_text(page, "window.HNF_GLOBAL_INIT").unwrap();
    parse_json(&text).unwrap()
}

#[test]
fn regex_escape_marks_meta_characters() {
    assert_eq!(regex_escape("window.HNF_GLOBAL_INIT"), "window\\.HNF_GLOBAL_INIT");
    assert_eq!(regex_escape("a+b(c)"), "a\\+b\\(c\\)");
    assert_eq!(regex_escape("plain"), "plain");
}

#[test]
fn the_global_init_object_is_cut_out_as_json() {
    let page = page(2, ENTRY);
    let text = LiveStreamExtractor::variable_object_text(&page, "window.HNF_GLOBAL_INIT").unwrap();
    assert!(text.starts_with("{\"roomInfo\":{\"eLiveStatus\":2,"));
    assert!(text.ends_with("}}}}}"));
    match LiveStreamExtractor::variable_object_text(&page, "window.MISSING") {
        Err(HuyaClientError::ExtractorError(m)) => assert_eq!(m, "Variable window.MISSING not found"),
        _ => panic!("expected a missing variable"),
    }
    match LiveStreamExtractor::variable_object_text("window.X = {a: 1", "window.X") {
        Err(HuyaClientError::ExtractorError(m)) => {
            assert_eq!(m, "Could not find end of JSON for variable window.X")
        }
        _ => panic!("expected an unterminated object"),
    }
}

#[test]
fn a_live_page_gives_user_room_and_player_url() {
    let (user, room, stream) = LiveStreamExtractor::infos_of(&init_of(&page(2, ENTRY))).unwrap();
    assert_eq!((user.user_id.as_str(), user.user_name.as_str()), ("123", "nick"));
    assert_eq!(user.user_avatar, "https://a/a.jpg");
    assert_eq!((room.room_id.as_str(), room.room_title.as_str()), ("456", "title"));
    assert_eq!(room.platform, "huya");
    assert!(room.status);
    assert_eq!(stream.hls_url, "https://al.hls.huya.com/src/123-456.m3u8?wsSecret=x&wsTime=y");
}

#[test]
fn offline_and_broken_pages() {
    let offline = page(1, ENTRY);
    let (_, room, stream) = LiveStreamExtractor::infos_of(&init_of(&offline)).unwrap();
    assert!(!room.status);
    assert!(stream.hls_url.is_empty());

    let no_entries = page(2, "");
    match LiveStreamExtractor::infos_of(&init_of(&no_entries)) {
        Err(HuyaClientError::ExtractorError(m)) => assert_eq!(m, "Missing stream entries in page data"),
        _ => panic!("expected missing entries"),
    }
    let empty = Json::Object(vec![]);
    match LiveStreamExtractor::infos_of(&empty) {
        Err(HuyaClientError::ExtractorError(m)) => assert_eq!(m, "Missing room info in page data"),
        _ => panic!("expected missing room info"),
    }
}

#[test]
fn probes_recognize_stream_data() {
    use_probes();
}

fn use_probes() {
    use_flv();
    assert!(recorder::platforms::huya::api::is_media_playlist("#EXTM3U\n#EXTINF:2.0,\na.ts"));
    assert!(!recorder::platforms::huya::api::is_media_playlist("#EXTM3U\n#EXT-X-STREAM-INF:BANDWIDTH=1\nv.m3u8"));
}

fn use_flv() {
    assert!(recorder::platforms::huya::api::is_flv_head(b"FLV\x01\x05\x00\x00\x00\x09"));
    assert!(!recorder::platforms::huya::api::is_flv_head(b"<html>error</html>"));
    assert!(!recorder::platforms::huya::api::is_flv_head(b"FL"));
}

#[test]
fn a_room_page_script_is_read_whole() {
    let (user, room, stream) = LiveStreamExtractor::extract_infos(&page(2, ENTRY)).unwrap();
    assert_eq!(user.user_name, "nick");
    assert_eq!(room.room_id, "456");
    assert_eq!(stream.hls_url, "https://al.hls.huya.com/src/123-456.m3u8?wsSecret=x&wsTime=y");
    match LiveStreamExtractor::extract_infos("<script>var a = 1;</script>") {
        Err(HuyaClientError::ExtractorError(m)) => assert_eq!(m, "Variable window.HNF_GLOBAL_INIT not found"),
        _ => panic!("expected a missing variable"),
    }
    match LiveStreamExtractor::extract_infos("window.HNF_GLOBAL_INIT = {\"a\": };") {
        Err(HuyaClientError::ExtractorError(m)) => assert!(m.starts_with("expected value")),
        other => panic!("expected a JSON error, got {other:?}"),
    }
}
