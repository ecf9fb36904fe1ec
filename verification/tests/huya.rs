use recorder::platforms::huya::api::{
    hls_probe_plan, is_flv_head, pick_next, pick_start, resolve_hls_url, HlsProbe, PickAction,
};
use recorder::platforms::huya::extractor::{LiveStreamExtractor, StreamInfo};
use recorder::platforms::huya::url_builder::UrlBuilder;

const ANTI_CODE: &str = "wsSecret=7abc7dec8809146f31f92046eb044e3b&wsTime=68fa41ba&fm=RFdxOEJjSjNoNkRKdDZUWV8kMF8kMV8kMl8kMw%3D%3D&ctype=tars_mobile&fs=bgct&t=103";
const STREAM_NAME: &str = "156976698-156976698-674209784144068608-314076852-10057-A-0-1";

#[test]
fn test_build_anticode_recomputes_the_signature() {
    let anticode =
        UrlBuilder::build_anticode_with(ANTI_CODE, STREAM_NAME, 1790087654321, 12345678)
            .unwrap();
    assert_eq!(
        anticode,
        "wsSecret=1617a1457574a61272203d8c6beb9a5c&wsTime=68fa41ba&ctype=tars_mobile&fs=bgct&seqid=1790099999999&u=3160493568&sdk_sid=1790087654321&ratio=0&t=100&ver=1&sv=2401090219&codec=264"
    );
}

#[test]
fn test_build_anticode_defaults_missing_params() {
    let anticode = UrlBuilder::build_anticode_with(
        "wsTime=68fa41ba&fm=RFdxOEJjSjNoNkRKdDZUWV8kMF8kMV8kMl8kMw%3D%3D",
        STREAM_NAME,
        1790087654321,
        12345678,
    )
    .unwrap();

    assert!(anticode.contains("ctype=huya_live"));
    assert!(anticode.contains("fs=bgct"));
}

#[test]
fn test_build_anticode_requires_signature_inputs() {
    assert!(UrlBuilder::build_anticode("wsTime=68fa41ba", STREAM_NAME).is_err());
    assert!(UrlBuilder::build_anticode(
        "fm=RFdxOEJjSjNoNkRKdDZUWV8kMF8kMV8kMl8kMw%3D%3D",
        STREAM_NAME
    )
    .is_err());
}

#[test]
fn anticode_errors_name_the_missing_field() {
    assert_eq!(
        UrlBuilder::build_anticode_with("wsTime=1", STREAM_NAME, 0, 0),
        Err("anticode is missing `fm`".to_string())
    );
    assert_eq!(
        UrlBuilder::build_anticode_with("fm=abc", STREAM_NAME, 0, 0),
        Err("anticode is missing `wsTime`".to_string())
    );
    assert!(UrlBuilder::build_anticode_with("fm=abc&wsTime=1", STREAM_NAME, 0, 0)
        .unwrap_err()
        .starts_with("invalid `fm` base64: "));
}

#[test]
fn test_id() {
    let info = StreamInfo {
        hls_url: "https://hs.hls.huya.com/huyalive/156976698-156976698-674209784144068608-314076852-10057-A-0-1.m3u8?ratio=200".to_string(),
    };
    assert_eq!(
        info.id(),
        "156976698-156976698-674209784144068608-314076852-10057-A-0-1"
    );
}

#[test]
fn stream_id_is_absent_for_unparsable_urls() {
    let info = StreamInfo {
        hls_url: "https://cdn.test/live/abc.m3u8".to_string(),
    };
    assert_eq!(info.try_id().as_deref(), Some("abc"));
    let bad = StreamInfo { hls_url: "not a url".to_string() };
    assert_eq!(bad.try_id(), None);
}

#[test]
fn js_objects_become_json() {
    assert_eq!(
        LiveStreamExtractor::js_to_json("{a:'x'}"),
        r#"{"a":"x"}"#
    );
}

#[test]
fn object_end_is_found_after_the_closing_brace() {
    assert_eq!(LiveStreamExtractor::find_json_end(r#"{"a":"}"};rest"#), Some(9));
    assert_eq!(LiveStreamExtractor::find_json_end("no object"), None);
}

#[test]
fn relative_playlist_entries_are_joined_to_the_playlist() {
    assert_eq!(
        resolve_hls_url("https://cdn.test/live/index.m3u8", "seg1.ts"),
        "https://cdn.test/live/seg1.ts"
    );
    assert_eq!(
        resolve_hls_url("https://cdn.test/live/index.m3u8", "https://other.test/a.ts"),
        "https://other.test/a.ts"
    );
}

#[test]
fn hls_probes_follow_master_variants() {
    assert!(matches!(hls_probe_plan("https://h.test/live.m3u8", "#EXTM3U\n#EXT-X-TARGETDURATION:4\n#EXTINF:4.0,\n0.ts\n"), HlsProbe::Usable));
    match hls_probe_plan("https://h.test/a/live.m3u8", "#EXTM3U\n#EXT-X-STREAM-INF:BANDWIDTH=1\n/media.m3u8\n#EXT-X-STREAM-INF:BANDWIDTH=2\nv2.m3u8\n") {
        HlsProbe::FollowVariants(urls) => {
            assert_eq!(urls, vec!["https://h.test/media.m3u8".to_string(), "https://h.test/a/v2.m3u8".to_string()])
        }
        _ => panic!("expected the variants"),
    }
    assert!(matches!(hls_probe_plan("https://h.test/x.m3u8", "<html>error</html>"), HlsProbe::Unusable));
}

#[test]
fn the_first_usable_candidate_is_picked() {
    assert_eq!(pick_start(0), PickAction::NoneUsable);
    assert_eq!(pick_start(3), PickAction::Probe(0));
    assert_eq!(pick_next(3, 0, false), PickAction::Probe(1));
    assert_eq!(pick_next(3, 1, true), PickAction::Pick(1));
    assert_eq!(pick_next(3, 2, false), PickAction::NoneUsable);
    assert!(is_flv_head(b"FLV\x01\x05"));
    assert!(!is_flv_head(b"<html>error</html>"));
}
