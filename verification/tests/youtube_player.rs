use recorder::errors::RecorderError;
use recorder::json::Json;
use recorder::platforms::youtube::page::{innertube_request, player_hls};

fn obj(members: Vec<(&str, Json)>) -> Json {
    Json::Object(members.into_iter().map(|(k, v)| (k.to_string(), v)).collect())
}

fn s(v: &str) -> Json {
    Json::Str(v.to_string())
}

fn expected_body(video_id: &str, visitor: Option<&str>) -> String {
    let mut client = serde_json::Map::new();
    client.insert("clientName".to_string(), "ANDROID".into());
    client.insert("clientVersion".to_string(), "20.10.38".into());
    client.insert("androidSdkVersion".to_string(), 35.into());
    client.insert("hl".to_string(), "en".into());
    client.insert("gl".to_string(), "US".into());
    client.insert("platform".to_string(), "MOBILE".into());
    if let Some(v) = visitor {
        client.insert("visitorData".to_string(), v.into());
    }
    let mut context = serde_json::Map::new();
    context.insert("client".to_string(), serde_json::Value::Object(client));
    let mut body = serde_json::Map::new();
    body.insert("context".to_string(), serde_json::Value::Object(context));
    body.insert("videoId".to_string(), video_id.into());
    body.insert("contentCheckOk".to_string(), true.into());
    body.insert("racyCheckOk".to_string(), true.into());
    serde_json::Value::Object(body).to_string()
}

#[test]
fn innertube_request_uses_the_first_config_with_a_key() {
    let configs = vec![
        obj(vec![("OTHER", s("x"))]),
        obj(vec![("INNERTUBE_API_KEY", s("KEY1")), ("VISITOR_DATA", s("Cgt\"v"))]),
        obj(vec![("INNERTUBE_API_KEY", s("KEY2"))]),
    ];
    let (url, body) = innertube_request(&configs, "abcdefghijk").unwrap();
    assert_eq!(url, "https://www.youtube.com/youtubei/v1/player?key=KEY1");
    assert_eq!(body, expected_body("abcdefghijk", Some("Cgt\"v")));

    let (_, body) = innertube_request(&vec![obj(vec![("INNERTUBE_API_KEY", s("KEY2"))])], "id").unwrap();
    assert_eq!(body, expected_body("id", None));
}

#[test]
fn innertube_request_errors() {
    match innertube_request(&vec![obj(vec![])], "id") {
        Err(RecorderError::ApiError { error }) => {
            assert_eq!(error, "YouTube Innertube configuration was not found")
        }
        _ => panic!("expected no configuration"),
    }
    match innertube_request(&vec![obj(vec![("INNERTUBE_API_KEY", s(""))])], "id") {
        Err(RecorderError::ApiError { error }) => assert_eq!(error, "YouTube Innertube API key was not found"),
        _ => panic!("expected no key"),
    }
}

#[test]
fn player_answer_gives_the_manifest() {
    let answer = obj(vec![("streamingData", obj(vec![("hlsManifestUrl", s("https://m/x.m3u8"))]))]);
    assert_eq!(player_hls(&answer).as_deref(), Some("https://m/x.m3u8"));
    let sabr = obj(vec![("streamingData", obj(vec![("serverAbrStreamingUrl", s("u"))]))]);
    assert_eq!(player_hls(&sabr), None);
}
