use recorder::errors::RecorderError;
use recorder::json::Json;
use recorder::platforms::twitch::api::{
    best_variant_url, graphql_data, playback_token, room_info_from_data, token_expiry, usher_url,
    GraphqlFailure, PLAYBACK_TOKEN_QUERY, ROOM_QUERY,
};

fn obj(members: Vec<(&str, Json)>) -> Json {
    Json::Object(members.into_iter().map(|(k, v)| (k.to_string(), v)).collect())
}

fn s(t: &str) -> Json {
    Json::Str(t.to_string())
}

fn api_error(e: RecorderError) -> String {
    match e {
        RecorderError::ApiError { error } => error,
        _ => panic!("not an API error"),
    }
}

#[test]
fn playback_query_contains_live_token_fields() {
    assert!(PLAYBACK_TOKEN_QUERY.contains("streamPlaybackAccessToken"));
    assert!(PLAYBACK_TOKEN_QUERY.contains("videoPlaybackAccessToken"));
    assert!(PLAYBACK_TOKEN_QUERY.contains("playerBackend"));
    assert!(ROOM_QUERY.contains("previewImageURL(width: 640, height: 360)"));
}

#[test]
fn live_rooms_read_the_stream() {
    let data = obj(vec![(
        "user",
        obj(vec![
            ("id", s("1")),
            ("login", s("ninja")),
            ("displayName", s("")),
            ("profileImageURL", s("https://avatar")),
            ("stream", obj(vec![("id", s("99")), ("title", s(""))])),
        ]),
    )]);
    let room = room_info_from_data("ninja", &data).unwrap();
    assert!(room.live);
    assert_eq!(room.live_id.as_deref(), Some("99"));
    assert_eq!(room.user_name, "ninja");
    assert_eq!(room.title, "ninja");
    assert_eq!(room.cover, "https://avatar");
}

#[test]
fn offline_rooms_and_missing_fields() {
    let offline = obj(vec![(
        "user",
        obj(vec![("id", s("1")), ("displayName", s("Ninja")), ("stream", Json::Null)]),
    )]);
    let room = room_info_from_data("ninja", &offline).unwrap();
    assert!(!room.live);
    assert_eq!((room.title.as_str(), room.cover.as_str(), room.user_avatar.as_str()), ("Ninja", "", ""));
    assert_eq!(api_error(room_info_from_data("ghost", &obj(vec![("user", Json::Null)])).unwrap_err()), "Twitch channel not found: ghost");
    let no_name = obj(vec![("user", obj(vec![("id", s("1"))]))]);
    assert_eq!(api_error(room_info_from_data("x", &no_name).unwrap_err()), "Twitch response is missing display name");
    let no_stream_id = obj(vec![("user", obj(vec![("id", s("1")), ("login", s("x")), ("stream", obj(vec![]))]))]);
    assert_eq!(api_error(room_info_from_data("x", &no_stream_id).unwrap_err()), "Twitch response is missing stream id");
}

#[test]
fn playback_tokens_and_expiry() {
    let data = obj(vec![("streamPlaybackAccessToken", obj(vec![("value", s("{}")), ("signature", s("sig"))]))]);
    assert_eq!(playback_token(&data).unwrap(), ("{}".to_string(), "sig".to_string()));
    assert!(matches!(playback_token(&obj(vec![])), Err(RecorderError::NoStreamAvailable)));
    let unsigned = obj(vec![("streamPlaybackAccessToken", obj(vec![("value", s("{}"))]))]);
    assert!(matches!(playback_token(&unsigned), Err(RecorderError::InvalidResponse)));
    assert_eq!(token_expiry(Some(&obj(vec![("expires", Json::PosInt(1700000000))]))).unwrap(), 1700000000);
    assert_eq!(token_expiry(Some(&obj(vec![]))).unwrap(), 0);
    match token_expiry(None) {
        Err(RecorderError::InvalidResponseJson { resp: Json::Object(m) }) => {
            assert_eq!(m[0].0, "streamPlaybackAccessToken");
        }
        _ => panic!("expected the placeholder document"),
    }
}

#[test]
fn usher_urls_form_encode_the_token() {
    let url = usher_url("ninja", "{\"a\":1} x", "s/g").unwrap();
    assert!(url.starts_with("https://usher.ttvnw.net/api/channel/hls/ninja.m3u8?client_id=kimne78kx3ncx6brgo4mv6wki5h1ko&token=%7B%22a%22%3A1%7D+x&sig=s%2Fg&allow_source=true&allow_audio_only=true&player_backend=mediaplayer&player_type=site&p="));
    let p: u32 = url.rsplit("&p=").next().unwrap().parse().unwrap();
    assert!(p < 1_000_000);
}

#[test]
fn the_last_variant_of_greatest_bandwidth_is_chosen() {
    let variants = vec![
        ("low.m3u8".to_string(), 160000u64),
        ("high.m3u8".to_string(), 6000000),
        ("high2.m3u8".to_string(), 6000000),
    ];
    assert_eq!(best_variant_url("https://x.test/master.m3u8", &variants).unwrap(), "https://x.test/high2.m3u8");
    assert!(matches!(best_variant_url("https://x.test/m.m3u8", &vec![]), Err(RecorderError::M3u8ParseFailed { .. })));
    assert!(matches!(best_variant_url("not a url", &variants), Err(RecorderError::InvalidResponse)));
}

#[test]
fn graphql_replies_give_data_or_errors() {
    let reply = Json::Array(vec![obj(vec![("data", obj(vec![("user", Json::Null)]))])]);
    assert!(matches!(graphql_data(reply), Ok(Json::Object(_))));
    let failed = obj(vec![(
        "errors",
        Json::Array(vec![obj(vec![("message", s("a"))]), obj(vec![]), obj(vec![("message", s("b"))])]),
    )]);
    match graphql_data(failed) {
        Err(GraphqlFailure::Messages(m)) => assert_eq!(m, "a; b"),
        _ => panic!("expected the messages"),
    }
    let silent = obj(vec![("errors", Json::Array(vec![obj(vec![])]))]);
    assert!(matches!(graphql_data(silent), Err(GraphqlFailure::Unexplained)));
    assert!(matches!(graphql_data(Json::Array(vec![])), Err(GraphqlFailure::MissingData(Json::Null))));
    match graphql_data(obj(vec![("x", Json::Bool(true))])) {
        Err(GraphqlFailure::MissingData(Json::Object(m))) => assert_eq!(m.len(), 1),
        _ => panic!("expected the answer back"),
    }
}
