use recorder::errors::RecorderError;
use recorder::json::Json;
use recorder::platforms::douyin::api::{
    h5_answer_error, h5_room_answer, h5_room_error, h5_room_info_url, web_enter_params, web_enter_url,
};

fn api_error(e: RecorderError) -> String {
    match e {
        RecorderError::ApiError { error } => error,
        _ => panic!("not an API error"),
    }
}

fn obj(members: Vec<(&str, Json)>) -> Json {
    Json::Object(members.into_iter().map(|(k, v)| (k.to_string(), v)).collect())
}

#[test]
fn room_api_addresses_carry_the_room() {
    assert_eq!(
        h5_room_info_url(123, "MS4w"),
        "https://webcast.amemv.com/webcast/room/reflow/info/?type_id=0&live_id=1&version_code=99.99.99&app_id=1128&room_id=123&sec_user_id=MS4w&aid=6383&device_platform=web"
    );
    let params = web_enter_params(-7, "tok");
    assert!(params.starts_with("aid=6383&app_name=douyin_web&"));
    assert!(params.ends_with("&web_rid=-7&ms_token=tok"));
    assert_eq!(web_enter_url(-7, "tok", "sig"), format!("https://live.douyin.com/webcast/room/web/enter/?{params}&a_bogus=sig"));
}

#[test]
fn h5_errors_are_classified() {
    let blocked = obj(vec![
        ("status_code", Json::PosInt(10011)),
        ("data", obj(vec![("message", Json::Str("room closed".to_string()))])),
    ]);
    assert_eq!(api_error(h5_room_error(&blocked, "t")), "room closed");
    let other = obj(vec![("status_code", Json::NegInt(-3))]);
    assert_eq!(api_error(h5_room_error(&other, "t")), "API returned error status_code: -3 - Unknown error");
    let session = obj(vec![
        ("status_code", Json::PosInt(0)),
        ("status_message", Json::Str("invalid session id".to_string())),
    ]);
    assert!(api_error(h5_room_error(&session, "t")).starts_with("Invalid session - please check your cookies."));
    let unknown = obj(vec![("x", Json::Null)]);
    assert_eq!(api_error(h5_room_error(&unknown, "{\"x\":null}")), "Failed to parse h5 room info response: {\"x\":null}");
}

fn h5(text: &str) -> Option<recorder::platforms::douyin::api::DouyinBasicRoomInfo> {
    recorder::platforms::douyin::api::h5_room_answer(text).ok()
}

#[test]
fn h5_room_answer_maps_a_live_room() {
    let room = h5(r#"{"data":{"room":{"id_str":"7001","title":"t","status":2,
        "cover":{"url_list":["https://c/1.jpg","https://c/2.jpg"]},
        "stream_url":{"hls_pull_url":"https://h/x.m3u8","live_core_sdk_data":{"pull_data":{"stream_data":"{}"}}},
        "owner":{"nickname":"n","sec_uid":"MS4","avatar_thumb":{"url_list":["https://a/1.jpg"]}}}},"status_code":0}"#)
    .unwrap();
    assert_eq!((room.room_id_str.as_str(), room.room_title.as_str()), ("7001", "t"));
    assert_eq!(room.cover.as_deref(), Some("https://c/1.jpg"));
    assert_eq!(room.status, 0);
    assert_eq!((room.hls_url.as_str(), room.stream_data.as_str()), ("https://h/x.m3u8", "{}"));
    assert_eq!((room.user_name.as_str(), room.user_avatar.as_str(), room.sec_user_id.as_str()), ("n", "https://a/1.jpg", "MS4"));
}

#[test]
fn h5_room_answer_defaults_and_shape() {
    let room = h5(r#"{"data":{"room":{"id_str":"1","title":"","status":4,"cover":null,
        "owner":{"nickname":"n","sec_uid":"s","avatar_thumb":{"url_list":[]}}}}}"#)
    .unwrap();
    assert_eq!(room.status, 1);
    assert_eq!(room.cover, None);
    assert!(room.hls_url.is_empty() && room.stream_data.is_empty() && room.user_avatar.is_empty());
    // Not a room: the error path reads it.
    assert!(h5(r#"{"status_code":10011,"data":{"message":"m"}}"#).is_none());
    assert!(h5(r#"{"data":{"room":{"id_str":"1","title":"","status":"2","owner":{"nickname":"n","sec_uid":"s","avatar_thumb":{"url_list":[]}}}}}"#).is_none());
}

#[test]
fn h5_answer_texts_give_their_errors() {
    assert_eq!(api_error(h5_answer_error("<html>")), "Failed to parse h5 room info response: <html>");
    assert_eq!(
        api_error(h5_answer_error(r#"{"status_code":5,"data":{"message":"m"}}"#)),
        "API returned error status_code: 5 - m"
    );
    assert_eq!(api_error(h5_room_answer("<html>").unwrap_err()), "Failed to parse h5 room info response: <html>");
    assert_eq!(
        api_error(h5_room_answer(r#"{"status_code":10011,"data":{"message":"closed"}}"#).unwrap_err()),
        "closed"
    );
}
