use recorder::platforms::douyu::decode::{parse_encryption_response, parse_play_response, parse_room_response};
use recorder::platforms::douyu::response::{flv_url, is_offline_error, map_room_status, platform_live_id, room_is_live};

#[test]
fn parse_room_response_and_map_status() {
    let response = parse_room_response(
        r#"{
            "error": 0,
            "data": {
                "room_id": 123,
                "room_thumb": "https://img.example/cover.jpg",
                "room_name": "测试直播",
                "room_status": "1",
                "start_time": "2025-01-02 03:04:05",
                "owner_name": "主播",
                "avatar": "https://img.example/avatar.jpg",
                "online": 42
            }
        }"#,
    )
    .unwrap();
    let room = response.data.unwrap();

    assert!(room_is_live(&room));
    assert_eq!(room.room_id, "123");
    assert_eq!(platform_live_id(&room, 123), "2025-01-02_03_04_05");
    assert!(!map_room_status("2", 42));
    assert!(map_room_status("", 42));
}

#[test]
fn live_id_is_safe_as_a_windows_path_component() {
    let response = parse_room_response(
        r#"{"error":0,"data":{"room_id":"77","room_status":"1","start_time":"2025-01-02 03:04:05"}}"#,
    )
    .unwrap();
    let room = response.data.unwrap();
    let live_id = platform_live_id(&room, 77);

    assert!(!live_id.contains(':'));
    assert!(!live_id.contains(' '));
    assert_eq!(live_id, "2025-01-02_03_04_05");
}

#[test]
fn parse_offline_room_and_use_room_id_fallback() {
    let response =
        parse_room_response(r#"{"error":0,"data":{"room_id":"77","room_status":"2","start_time":""}}"#)
            .unwrap();
    let room = response.data.unwrap();

    assert!(!room_is_live(&room));
    assert_eq!(platform_live_id(&room, 77), "77");
}

#[test]
fn parse_play_response_and_build_flv_url() {
    let response = parse_play_response(
        r#"{
            "error": 0,
            "msg": "OK",
            "data": {
                "room_id": "123",
                "rtmp_url": "https://cdn.example/live/",
                "rtmp_live": "stream.flv?token=abc",
                "player_1": "https://cdn.example/hevc.flv?token=abc"
            }
        }"#,
    )
    .unwrap();
    let data = response.data.unwrap();

    assert_eq!(flv_url(&data).as_deref(), Some("https://cdn.example/live/stream.flv?token=abc"));
}

#[test]
fn hevc_player_url_is_not_used_without_the_primary_avc_stream() {
    let response = parse_play_response(
        r#"{
            "error": 0,
            "data": {
                "rtmp_url": "",
                "rtmp_live": "",
                "player_1": "https://cdn.example/hevc.flv?token=abc"
            }
        }"#,
    )
    .unwrap();

    assert!(flv_url(&response.data.unwrap()).is_none());
}

#[test]
fn empty_play_data_is_not_a_stream() {
    let response = parse_play_response(r#"{"error":-5,"msg":"closeRoom","data":""}"#).unwrap();
    assert!(response.data.is_none());
    assert!(is_offline_error(response.error, &response.msg));
}

#[test]
fn encryption_iteration_count_is_bounded() {
    let body = r#"{"error":0,"data":{"rand_str":"r","enc_time":17,"key":"k","is_special":false,"enc_data":"e"}}"#;
    assert!(parse_encryption_response(body).is_err());
}

#[test]
fn encryption_response_accepts_integer_boolean_fields() {
    let response = parse_encryption_response(
        r#"{
            "error": 0,
            "data": {
                "rand_str": "rand",
                "enc_time": "2",
                "expire_at": 2000000000,
                "key": "key",
                "is_special": 1,
                "enc_data": "encoded"
            }
        }"#,
    )
    .unwrap();
    let data = response.data.unwrap();

    assert_eq!(data.enc_time, 2);
    assert!(data.is_special);
}

#[test]
fn lenient_fields_refuse_what_carries_no_value() {
    assert!(parse_room_response(r#"{"data":{"room_id":[1]}}"#).is_err());
    assert!(parse_room_response(r#"{"msg":null}"#).is_err());
    assert!(parse_room_response(r#"[1]"#).is_err());
    assert!(parse_play_response(r#"{"data":{"cdnsWithName":null}}"#).is_err());
    let play = parse_play_response(
        r#"{"data":{"room_id":" 9 ","player_1":{"a":[1,"x\"y"]},"cdnsWithName":[{"cdn":"ws"},{"cdn":2}]}}"#,
    )
    .unwrap()
    .data
    .unwrap();
    assert_eq!(play.room_id, 9);
    assert_eq!(play.player_1.as_deref(), Some(r#"{"a":[1,"x\"y"]}"#));
    let cdns: Vec<&str> = play.cdns.iter().map(|c| c.cdn.as_str()).collect();
    assert_eq!(cdns, vec!["ws", "2"]);
    let key = parse_encryption_response(r#"{"data":{"is_special":"Yes","enc_time":null}}"#).unwrap().data.unwrap();
    assert!(key.is_special);
    assert_eq!(key.enc_time, 0);
    assert!(parse_encryption_response(r#"{"data":{"is_special":"maybe"}}"#).is_err());
    assert!(parse_room_response(r#"{"error":4294967296}"#).is_err());
}
