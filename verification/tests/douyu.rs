use recorder::account::Account;
use recorder::platforms::douyu::api::{
    build_play_form, extract_real_room_id, md5_signature, numeric_rid_query,
    parse_numeric_room_id, pull_http_identity, DEFAULT_CDN, DEFAULT_RATE, DEFAULT_USER_AGENT,
    DOUYU_REFERER,
};
use recorder::platforms::douyu::response::{
    flv_url, is_auth_failure_text, is_offline_error, map_room_status, platform_live_id,
    room_is_live, DouyuEncryptionData, DouyuH5PlayData, DouyuRoomInfo,
};

fn test_key() -> DouyuEncryptionData {
    DouyuEncryptionData {
        rand_str: "rand".to_string(),
        enc_time: 1,
        expire_at: 0,
        key: "key".to_string(),
        is_special: false,
        enc_data: "encoded".to_string(),
    }
}

#[test]
fn md5_signature_matches_douyu_fallback_algorithm() {
    assert_eq!(
        md5_signature(&test_key(), 123, 456),
        "77467e273c90028657264b6061592b5b"
    );
}

#[test]
fn special_key_omits_room_and_timestamp_salt() {
    let mut key = test_key();
    key.enc_time = 0;
    key.is_special = true;
    assert_eq!(
        md5_signature(&key, 123, 456),
        "c46d1fc27e9e013e0efb4c314e063511"
    );
}

#[test]
fn play_form_contains_signed_request_fields() {
    let form = build_play_form(&test_key(), 123, 456, DEFAULT_CDN, DEFAULT_RATE);
    let fields: std::collections::HashMap<_, _> = form.into_iter().collect();

    assert_eq!(fields.get("tt").map(String::as_str), Some("456"));
    assert_eq!(fields.get("cdn").map(String::as_str), Some(""));
    assert_eq!(fields.get("rate").map(String::as_str), Some("0"));
    assert_eq!(fields.get("hevc").map(String::as_str), Some("0"));
    assert_eq!(fields.get("enc_data").map(String::as_str), Some("encoded"));
    assert_eq!(fields.len(), 9);
    assert_eq!(
        fields.get("auth").map(String::as_str),
        Some("77467e273c90028657264b6061592b5b")
    );
}

#[test]
fn numeric_room_ids_are_required() {
    assert_eq!(parse_numeric_room_id(" 123 ").unwrap(), 123);
    assert!(parse_numeric_room_id("vanity-name").is_err());
    assert_eq!(
        numeric_rid_query("https://www.douyu.com/topic/lpl?rid=123456"),
        Some(123456)
    );
    assert_eq!(
        numeric_rid_query("bsr://www.douyu.com/topic/lpl?rid=123456#section"),
        Some(123456)
    );
    assert_eq!(numeric_rid_query("https://www.douyu.com/123456"), None);
}

#[test]
fn embedded_room_id_is_extracted_from_mobile_page() {
    assert_eq!(
        extract_real_room_id(r#"<script>roomInfo":{"rid":987654,"roomName":"test"}</script>"#),
        Some(987654)
    );
    assert_eq!(
        extract_real_room_id(r#"roomInfo&quot;:{&quot;rid&quot;:123456}"#),
        Some(123456)
    );
    assert_eq!(extract_real_room_id("roomInfo: {}"), None);
}

#[test]
fn pull_identity_contains_referer_and_cookie() {
    let account = Account {
        cookies: "sid=abc".to_string(),
        ..Account::default()
    };
    let (user_agent, headers) = pull_http_identity(&account, 123);
    assert_eq!(user_agent, DEFAULT_USER_AGENT);
    assert!(headers.contains(&("Referer".to_string(), DOUYU_REFERER.to_string())));
    assert!(headers.contains(&("Cookie".to_string(), "sid=abc".to_string())));
}

#[test]
fn authentication_text_is_classified_without_marking_offline() {
    assert!(is_auth_failure_text("鉴权失败"));
    assert!(is_auth_failure_text("invalid token"));
    assert!(!is_auth_failure_text("closeRoom"));
}

fn room(room_id: &str, status: &str, start_time: &str, online: u64) -> DouyuRoomInfo {
    DouyuRoomInfo {
        room_id: room_id.to_string(),
        room_thumb: String::new(),
        room_name: String::new(),
        room_status: status.to_string(),
        start_time: start_time.to_string(),
        owner_name: String::new(),
        owner_uid: String::new(),
        avatar: String::new(),
        online,
    }
}

#[test]
fn room_status_and_live_id_follow_the_room_api() {
    let live = room("123", "1", "2025-01-02 03:04:05", 42);
    assert!(room_is_live(&live));
    assert_eq!(platform_live_id(&live, 123), "2025-01-02_03_04_05");
    assert!(!map_room_status("2", 42));
    assert!(map_room_status("", 42));

    let offline = room("77", "2", "", 0);
    assert!(!room_is_live(&offline));
    assert_eq!(platform_live_id(&offline, 77), "77");
}

#[test]
fn flv_url_joins_the_primary_stream_only() {
    let data = DouyuH5PlayData {
        room_id: 123,
        rtmp_url: "https://cdn.example/live/".to_string(),
        rtmp_live: "stream.flv?token=abc".to_string(),
        player_1: Some("https://cdn.example/hevc.flv?token=abc".to_string()),
        cdns: Vec::new(),
    };
    assert_eq!(
        flv_url(&data).as_deref(),
        Some("https://cdn.example/live/stream.flv?token=abc")
    );
    let empty = DouyuH5PlayData {
        room_id: 0,
        rtmp_url: String::new(),
        rtmp_live: String::new(),
        player_1: Some("https://cdn.example/hevc.flv?token=abc".to_string()),
        cdns: Vec::new(),
    };
    assert!(flv_url(&empty).is_none());
}

#[test]
fn closed_room_is_an_offline_error() {
    assert!(is_offline_error(-5, "closeRoom"));
}
