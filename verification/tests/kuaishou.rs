use recorder::account::Account;
use recorder::errors::RecorderError;
use recorder::json::Json;
use recorder::platforms::kuaishou::api::{
    build_web_candidate_urls, decode_json_string, extract_hls_play_url, extract_initial_state,
    extract_metadata_from_html, extract_room_page, extract_user_id_from_url, find_image_url,
    is_rate_limit_message, is_rate_limited_error, normalize_cookie_header, normalize_image_url,
    quality_rank, room_info_from_state, room_info_without_state, stream_urls_from_state,
    stream_urls_without_state, login_cookies, qr_accept_outcome, qr_scan_pending, web_referer,
    PageFetch, QrAccept, checked_profile_user, find_user_info, profile_user_text,
    qr_info_from_answer,
};
use recorder::platforms::kuaishou::response::{
    AdaptationSet, Author, ErrorType, LiveStream, LiveStreamResponse, PlayUrls, Representation,
    H264,
};

fn obj(members: Vec<(&str, Json)>) -> Json {
    Json::Object(members.into_iter().map(|(k, v)| (k.to_string(), v)).collect())
}

fn s(v: &str) -> Json {
    Json::Str(v.to_string())
}

#[test]
fn rate_limit_phrases_are_recognised() {
    assert!(is_rate_limit_message("  \u{64cd}\u{4f5c}\u{592a}\u{5feb}  "));
    assert!(is_rate_limit_message("\u{8bf7}\u{7a0d}\u{540e}\u{518d}\u{8bd5}!"));
    assert!(!is_rate_limit_message("   "));
    assert!(!is_rate_limit_message("all good"));
    assert!(is_rate_limited_error(&RecorderError::ApiError {
        error: "\u{8bbf}\u{95ee}\u{9891}\u{7e41}".to_string()
    }));
    assert!(!is_rate_limited_error(&RecorderError::InvalidValue));
}

#[test]
fn cookie_lines_become_one_header() {
    assert_eq!(
        normalize_cookie_header("a=1\r\n\n  b=2  \nc=3\n"),
        "a=1; b=2; c=3"
    );
    assert_eq!(normalize_cookie_header(""), "");
}

#[test]
fn user_ids_come_from_profile_urls() {
    assert_eq!(extract_user_id_from_url("https://live.kuaishou.com/u/abc123?x=1#f"), "abc123");
    assert_eq!(extract_user_id_from_url("https://www.kuaishou.com/profile/xyz/"), "xyz");
    assert_eq!(extract_user_id_from_url("https://v.kuaishou.com/short"), "short");
    assert_eq!(extract_user_id_from_url("https://example.com/a"), "");
}

#[test]
fn candidate_pages_cover_both_hosts_without_repeats() {
    assert_eq!(
        build_web_candidate_urls("https://live.kuaishou.com/u/abc"),
        vec![
            "https://live.kuaishou.com/u/abc",
            "https://www.kuaishou.com/u/abc",
            "https://www.kuaishou.com/live/u/abc",
        ]
    );
    assert!(build_web_candidate_urls("").is_empty());
}

#[test]
fn image_urls_are_trimmed_and_given_a_scheme() {
    assert_eq!(normalize_image_url("  //img.test/a.jpg "), "https://img.test/a.jpg");
    assert_eq!(normalize_image_url("https://img.test/a.jpg"), "https://img.test/a.jpg");
}

#[test]
fn quality_labels_are_ranked() {
    assert_eq!(quality_rank("4K"), 4000);
    assert_eq!(quality_rank("Blu-ray 1080P"), 1080);
    assert_eq!(quality_rank("Original"), 3000);
    assert_eq!(quality_rank("origin"), 0);
    assert_eq!(quality_rank("q540x"), 540);
    assert_eq!(quality_rank("unknown"), 0);
}

#[test]
fn escaped_page_strings_are_decoded() {
    assert_eq!(decode_json_string("a\\/b").as_deref(), Some("a/b"));
    assert_eq!(decode_json_string("plain").as_deref(), Some("plain"));
    assert_eq!(decode_json_string("bad\\x\\u002F").as_deref(), Some("bad\\x/"));
    assert_eq!(decode_json_string("bad\\x"), None);
}

#[test]
fn page_scraping_finds_hls_state_and_metadata() {
    let html = r#"<html><title>Streamer - </title><script>window.__INITIAL_STATE__ = {"a":1};(function(){})</script>
        "hlsPlayUrl": "https:\u002F\u002Fcdn.test\u002Flive.m3u8" "headUrl":"//img.test/h.jpg" "poster":"https://img.test/p.jpg"</html>"#;
    assert_eq!(
        extract_hls_play_url(html).as_deref(),
        Some("https://cdn.test/live.m3u8")
    );
    assert_eq!(extract_initial_state(html).as_deref(), Some(r#"{"a":1}"#));
    let (title, cover, avatar) = extract_metadata_from_html(html);
    assert_eq!(title.as_deref(), Some("Streamer -"));
    assert_eq!(cover.as_deref(), Some("https://img.test/p.jpg"));
    assert_eq!(avatar.as_deref(), Some("https://img.test/h.jpg"));
}

#[test]
fn images_are_found_by_key_name_and_depth() {
    let state = obj(vec![
        ("user", obj(vec![("profileAvatar", obj(vec![("urlList", Json::Array(vec![s("//a.test/1.jpg")]))]))])),
        ("list", Json::Array(vec![obj(vec![("headUrl", s("https://h.test/2.jpg"))])])),
    ]);
    assert_eq!(
        find_image_url(&state, &["headUrl"]).as_deref(),
        Some("https://a.test/1.jpg")
    );
    let nested = obj(vec![("list", Json::Array(vec![obj(vec![("headUrl", s("https://h.test/2.jpg"))])]))]);
    assert_eq!(
        find_image_url(&nested, &["headUrl"]).as_deref(),
        Some("https://h.test/2.jpg")
    );
    assert_eq!(find_image_url(&Json::Null, &["headUrl"]), None);
}

fn account(id: &str, name: &str) -> Account {
    Account {
        id: id.to_string(),
        name: name.to_string(),
        ..Account::default()
    }
}

#[test]
fn room_pages_fall_back_on_what_the_page_shows() {
    let html = r#""hlsPlayUrl":"https://cdn.test/a.m3u8""#;
    let page = extract_room_page(html, "https://live.kuaishou.com/u/abc", &account("", "")).unwrap();
    assert!(page.has_fallback_stream);
    assert_eq!(page.fallback.user_id, "abc");
    assert_eq!(page.fallback.user_name, "Kuaishou Live");
    assert_eq!(page.fallback.room_title, "Kuaishou Live's live");
    assert!(page.state.is_none());
    let info = room_info_without_state(page, None).unwrap();
    assert!(info.live_status);

    let page = extract_room_page("nothing", "https://live.kuaishou.com/u/abc", &account("", "")).unwrap();
    assert!(matches!(
        room_info_without_state(page, None),
        Err(RecorderError::ApiError { .. })
    ));

    assert!(extract_room_page("\u{64cd}\u{4f5c}\u{592a}\u{5feb}", "", &account("", "")).is_err());
}

fn representation(url: &str, name: &str, bitrate: i64) -> Representation {
    Representation {
        url: url.to_string(),
        name: Some(name.to_string()),
        quality_type: None,
        bitrate: Some(bitrate),
    }
}

fn live_with(reps: Vec<Representation>) -> LiveStreamResponse {
    LiveStreamResponse {
        live_stream: Some(LiveStream {
            play_urls: Some(PlayUrls {
                h264: Some(H264 {
                    adaptation_set: Some(AdaptationSet { representation: reps }),
                }),
                h265: None,
            }),
            cover_url: Some("//img.test/cover.jpg".to_string()),
            caption: Some("Caption".to_string()),
        }),
        author: Some(Author {
            name: "Author".to_string(),
            id: "42".to_string(),
            head_url: None,
        }),
        config: None,
        error_type: None,
    }
}

#[test]
fn room_info_comes_from_the_state() {
    let page = extract_room_page("<title>T</title>", "", &account("", "")).unwrap();
    let live = live_with(vec![representation("https://cdn.test/a.flv", "HD", 1000)]);
    let state = r#"{"avatar":"//img.test/av.jpg"}"#;
    let info = room_info_from_state(&page, &live, state, &account("", "")).unwrap();
    assert!(info.live_status);
    assert_eq!(info.room_title, "Caption");
    assert_eq!(info.room_cover_url, "https://img.test/cover.jpg");
    assert_eq!(info.user_id, "42");
    assert_eq!(info.user_name, "Author");
    assert_eq!(info.user_avatar, "https://img.test/av.jpg");

    let mut failed = live_with(Vec::new());
    failed.error_type = Some(ErrorType {
        title: "Closed".to_string(),
        content: "room closed".to_string(),
    });
    match room_info_from_state(&page, &failed, "not json", &account("", "")) {
        Err(RecorderError::ApiError { error }) => assert_eq!(error, "Closed: room closed"),
        other => panic!("unexpected {other:?}"),
    }
}

#[test]
fn streams_are_listed_hls_first_then_by_bitrate() {
    let live = live_with(vec![
        representation("https://cdn.test/low.flv", "SD", 500),
        representation("https://cdn.test/high.flv", "HD", 2000),
        representation("https://cdn.test/high.flv", "HD again", 2000),
    ]);
    let urls = stream_urls_from_state(None, &live).unwrap();
    let listed: Vec<&str> = urls.iter().map(|u| u.url.as_str()).collect();
    assert_eq!(
        listed,
        vec![
            "https://cdn.test/high.m3u8",
            "https://cdn.test/high.flv",
            "https://cdn.test/low.flv",
        ]
    );
    assert_eq!(urls[0].quality, "hls");

    let urls = stream_urls_from_state(Some("https://cdn.test/page.m3u8".to_string()), &live).unwrap();
    assert_eq!(urls[0].url, "https://cdn.test/page.m3u8");
    assert_eq!(urls.len(), 3);

    assert!(stream_urls_from_state(None, &live_with(Vec::new())).is_err());
    assert_eq!(
        stream_urls_without_state(Some("https://cdn.test/x.m3u8".to_string())).unwrap()[0].url,
        "https://cdn.test/x.m3u8"
    );
    assert!(stream_urls_without_state(None).is_err());
}

#[test]
fn web_pages_are_requested_with_the_matching_referer() {
    assert_eq!(web_referer("https://www.kuaishou.com/u/abc"), "https://www.kuaishou.com/");
    assert_eq!(web_referer("https://live.kuaishou.com/u/abc"), "https://live.kuaishou.com/");
}

#[test]
fn page_fetch_prefers_full_pages_then_stubs_then_errors() {
    let full = "x".repeat(257);
    let stub = "y".repeat(256);

    let mut fetch = PageFetch::new();
    assert!(fetch.on_response(false, "403 Forbidden", String::new(), "u1".to_string()).is_none());
    assert!(fetch.on_response(true, "200 OK", stub.clone(), "u2".to_string()).is_none());
    let page = fetch.on_response(true, "200 OK", full.clone(), "u3".to_string());
    assert_eq!(page, Some((full, "u3".to_string())));
    assert_eq!(fetch.finish().unwrap(), (stub.clone(), "u2".to_string()));

    let mut fetch = PageFetch::new();
    // Multi-byte characters count by bytes: 86 three-byte characters make 258 bytes.
    let wide = "页".repeat(86);
    assert!(fetch.on_response(true, "200 OK", wide.clone(), "w".to_string()).is_some());

    let mut fetch = PageFetch::new();
    assert!(fetch.on_response(false, "404 Not Found", String::new(), "u".to_string()).is_none());
    match fetch.finish() {
        Err(RecorderError::ApiError { error }) => assert_eq!(error, "Kuaishou web status: 404 Not Found"),
        _ => panic!("expected the status error"),
    }
    match PageFetch::new().finish() {
        Err(RecorderError::ApiError { error }) => assert_eq!(error, "Failed to fetch Kuaishou web page"),
        _ => panic!("expected the generic error"),
    }
}

#[test]
fn qr_login_reports_pending_steps() {
    let pending = qr_scan_pending(&obj(vec![("result", Json::PosInt(0))])).unwrap();
    assert_eq!(pending.code, 1);
    assert!(pending.cookies.is_empty());
    assert!(qr_scan_pending(&obj(vec![("result", Json::PosInt(1))])).is_none());
    // A missing or non-numeric result counts as done.
    assert!(qr_scan_pending(&obj(vec![])).is_none());
    assert!(qr_scan_pending(&obj(vec![("result", s("x"))])).is_none());

    match qr_accept_outcome(&obj(vec![("result", Json::PosInt(2))])) {
        Ok(QrAccept::Pending(st)) => assert_eq!(st.code, 2),
        _ => panic!("expected pending"),
    }
    match qr_accept_outcome(&obj(vec![("result", Json::PosInt(1)), ("qrToken", s("tok"))])) {
        Ok(QrAccept::Token(t)) => assert_eq!(t, "tok"),
        _ => panic!("expected the token"),
    }
    assert!(matches!(
        qr_accept_outcome(&obj(vec![("result", Json::PosInt(1))])),
        Err(RecorderError::InvalidValue)
    ));
}

#[test]
fn qr_login_cookies_come_from_the_callback_headers() {
    let headers = vec![
        Some("userId=1; Path=/; HttpOnly".to_string()),
        None,
        Some("kuaishou.server.web_st=abc; Domain=.kuaishou.com".to_string()),
    ];
    let status = login_cookies(&headers).unwrap();
    assert_eq!(status.code, 0);
    assert_eq!(status.cookies, "userId=1; userId=1; kuaishou.server.web_st=abc");

    let headers = vec![None, Some("a=b".to_string())];
    assert_eq!(login_cookies(&headers).unwrap().cookies, "a=b");

    match login_cookies(&vec![]) {
        Err(RecorderError::ApiError { error }) => {
            assert_eq!(error, "Failed to extract cookies from response")
        }
        _ => panic!("expected an error"),
    }
    assert!(login_cookies(&vec![Some(";x".to_string())]).is_ok());
}

#[test]
fn user_info_is_found_depth_first() {
    let state = obj(vec![
        ("config", obj(vec![("name", s("not a user"))])),
        (
            "list",
            Json::Array(vec![
                obj(vec![("id", s("")), ("name", s("empty id"))]),
                obj(vec![
                    ("profile", obj(vec![
                        ("userId", Json::PosInt(3_000_000_001)),
                        ("nickname", s("Streamer")),
                        ("headUrl", s("https://a/head.jpg")),
                    ])),
                ]),
            ]),
        ),
    ]);
    let user = find_user_info(&state).unwrap();
    assert_eq!(user.user_id, "3000000001");
    assert_eq!(user.user_name, "Streamer");
    assert_eq!(user.user_avatar, "https://a/head.jpg");

    // A plain id and name count when the specific names are missing.
    let plain = obj(vec![("id", s("42")), ("name", s("plain"))]);
    let user = find_user_info(&plain).unwrap();
    assert_eq!((user.user_id.as_str(), user.user_name.as_str(), user.user_avatar.as_str()), ("42", "plain", ""));
    assert!(find_user_info(&Json::Array(vec![s("x"), Json::Null])).is_none());
}

#[test]
fn profile_user_fallback_needs_id_and_name() {
    let page = r#"{"profile":{"ownerCount":{"fan":1},"user":{"id":"9","name":"n"},"currentWork":{}}}"#;
    assert_eq!(profile_user_text(page).unwrap(), r#"{"id":"9","name":"n"}"#);
    match profile_user_text("{}") {
        Err(RecorderError::ApiError { error }) => {
            assert_eq!(error, "Failed to extract user data - please check if cookies are valid")
        }
        _ => panic!("expected an error"),
    }
    let user = checked_profile_user("9".to_string(), "n".to_string(), "h".to_string()).unwrap();
    assert_eq!(user.user_avatar, "h");
    assert!(checked_profile_user(String::new(), "n".to_string(), String::new()).is_err());
    assert!(checked_profile_user("9".to_string(), String::new(), String::new()).is_err());
}

#[test]
fn qr_code_answer_needs_all_three_fields() {
    let answer = obj(vec![
        ("qrLoginToken", s("t")),
        ("qrLoginSignature", s("sig")),
        ("imageData", s("data:image/png;base64,AA")),
    ]);
    let qr = qr_info_from_answer(&answer).unwrap();
    assert_eq!((qr.qr_login_token.as_str(), qr.qr_login_signature.as_str()), ("t", "sig"));
    assert_eq!(qr.image_data, "data:image/png;base64,AA");
    let partial = obj(vec![("qrLoginToken", s("t")), ("imageData", s("d"))]);
    assert!(matches!(qr_info_from_answer(&partial), Err(RecorderError::InvalidValue)));
}

#[test]
fn live_data_is_cut_out_of_the_state_text() {
    use_live_stream_text();
}

fn use_live_stream_text() {
    let state = r#"{"a":1,"liveroom":{"liveStream":{"id":"x","playUrls":{}},"author":{"id":"u"},"gameInfo":{}}}"#;
    assert_eq!(
        recorder::platforms::kuaishou::api::live_stream_text(state).as_deref(),
        Some(r#"{"liveStream":{"id":"x","playUrls":{}},"author":{"id":"u"}}"#)
    );
    assert_eq!(recorder::platforms::kuaishou::api::live_stream_text("{}"), None);
}
