use recorder::errors::RecorderError;
use recorder::json::Json;
use recorder::media::{Codec, Format};
use recorder::outside::parse_json;
use recorder::platforms::bilibili::api::{play_info_stream_text, Protocol};
use recorder::platforms::tiktok::state::{live_stream_data, rehydration_state, sigi_state, user_info_from_page};
use recorder::platforms::twitch::api::master_playlist;

#[test]
fn play_info_bodies_that_are_not_json_are_invalid() {
    assert!(matches!(
        play_info_stream_text("<html>", Protocol::HttpStream, Format::Flv, &[Codec::Avc]),
        Err(RecorderError::InvalidResponse)
    ));
}

#[test]
fn master_playlists_read_the_token_expiry() {
    let data = parse_json(r#"{"streamPlaybackAccessToken":{"value":"{\"expires\":17}","signature":"s"}}"#).unwrap();
    let (url, expires) = master_playlist("ninja", &data).unwrap();
    assert!(url.starts_with("https://usher.ttvnw.net/api/channel/hls/ninja.m3u8?client_id="));
    assert_eq!(expires, 17);
    let no_expiry = parse_json(r#"{"streamPlaybackAccessToken":{"value":"{}","signature":"s"}}"#).unwrap();
    assert_eq!(master_playlist("ninja", &no_expiry).unwrap().1, 0);
    let bad = parse_json(r#"{"streamPlaybackAccessToken":{"value":"x","signature":"s"}}"#).unwrap();
    assert!(matches!(master_playlist("ninja", &bad), Err(RecorderError::InvalidResponseJson { .. })));
    assert!(matches!(master_playlist("ninja", &Json::Object(vec![])), Err(RecorderError::NoStreamAvailable)));
}

#[test]
fn tiktok_page_states_are_read_from_their_scripts() {
    let live = r#"<script id="SIGI_STATE" type="application/json">{"LiveRoom":{"a":1}}</script>"#;
    assert!(matches!(sigi_state(live), Some(Json::Object(_))));
    assert!(sigi_state("<html></html>").is_none());
    let home = r#"<script id="__UNIVERSAL_DATA_FOR_REHYDRATION__" type="application/json">{"__DEFAULT_SCOPE__":{}}</script>"#;
    assert!(rehydration_state(home).is_some());
    match user_info_from_page("<html></html>") {
        Err(RecorderError::ApiError { error }) => assert!(error.starts_with("Failed to extract TikTok state")),
        _ => panic!("expected a missing state"),
    }
}

#[test]
fn stream_data_may_be_written_as_a_json_string() {
    let plain = parse_json(r#"{"liveRoom":{"streamData":{"pull_data":{"stream_data":"{\"data\":{}}"}}}}"#).unwrap();
    assert!(matches!(live_stream_data(&plain), Some(Json::Object(_))));
    let escaped = parse_json(r#"{"liveRoom":{"streamData":{"pull_data":{"stream_data":"{\\\"data\\\":{}}"}}}}"#).unwrap();
    assert!(matches!(live_stream_data(&escaped), Some(Json::Object(_))));
    let none = parse_json(r#"{"liveRoom":{}}"#).unwrap();
    assert!(live_stream_data(&none).is_none());
}
