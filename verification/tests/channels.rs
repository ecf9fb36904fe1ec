use recorder::platforms::twitch::api::normalize_channel;
use recorder::platforms::youtube::page::{apply_player_hls, balanced_json, YoutubePage};
use recorder::platforms::youtube::{normalize_room_id, youtube_room_url};

#[test]
fn normalize_channel_accepts_logins_handles_and_urls() {
    assert_eq!(normalize_channel("Ninja").unwrap(), "ninja");
    assert_eq!(normalize_channel("@Ninja").unwrap(), "ninja");
    assert_eq!(
        normalize_channel("https://www.twitch.tv/Ninja?ref=foo").unwrap(),
        "ninja"
    );
    assert_eq!(
        normalize_channel("www.twitch.tv/Ninja/live").unwrap(),
        "ninja"
    );
    assert_eq!(normalize_channel("m.twitch.tv/@Ninja").unwrap(), "ninja");
}

#[test]
fn normalize_channel_rejects_invalid_logins() {
    assert!(normalize_channel("").is_err());
    assert!(normalize_channel("https://www.twitch.tv/").is_err());
    assert!(normalize_channel("bad channel").is_err());
    assert!(normalize_channel("a/b/c").is_err());
    assert!(normalize_channel("https://example.com/ninja").is_err());
    assert!(normalize_channel("https://www.twitch.tv/directory/all").is_err());
    assert!(normalize_channel("ninja/live").is_err());
    assert!(normalize_channel("https://www.twitch.tv/ninja/live/extra").is_err());
}

#[test]
fn normalize_channel_is_idempotent_on_an_example() {
    let once = normalize_channel("https://www.twitch.tv/Ninja?ref=foo").unwrap();
    assert_eq!(normalize_channel(&once).unwrap(), once);
}

#[test]
fn canonicalizes_supported_youtube_url_forms_to_path_safe_room_ids() {
    for url in [
        "https://www.youtube.com/watch?v=dQw4w9WgXcQ&si=share",
        "https://youtu.be/dQw4w9WgXcQ?si=share",
        "https://www.youtube.com/embed/dQw4w9WgXcQ",
        "https://www.youtube.com/shorts/dQw4w9WgXcQ",
        "https://www.youtube.com/live/dQw4w9WgXcQ",
    ] {
        assert_eq!(normalize_room_id(url).unwrap(), "dQw4w9WgXcQ");
    }
    assert_eq!(
        normalize_room_id("https://www.youtube.com/channel/UCcreator/live").unwrap(),
        "UCcreator"
    );
    assert_eq!(
        normalize_room_id("https://www.youtube.com/@creator/live").unwrap(),
        "@creator"
    );
    assert_eq!(
        normalize_room_id("https://www.youtube.com/c/old.name/live").unwrap(),
        "legacy-c-old.name"
    );
    assert_eq!(
        youtube_room_url("dQw4w9WgXcQ").unwrap(),
        "https://www.youtube.com/watch?v=dQw4w9WgXcQ"
    );
    assert_eq!(
        youtube_room_url("UC123").unwrap(),
        "https://www.youtube.com/channel/UC123/live"
    );
    assert_eq!(
        youtube_room_url("@creator").unwrap(),
        "https://www.youtube.com/@creator/live"
    );
    assert!(normalize_room_id("https://evil-youtube.com/@creator").is_err());
    assert!(normalize_room_id("https://www.youtube.com/watch?v=bad").is_err());
}

#[test]
fn missing_hls_manifest_does_not_report_room_as_live() {
    let mut page = YoutubePage {
        video_id: "video123456".to_string(),
        title: "Live title".to_string(),
        cover: String::new(),
        channel_id: "UCcreator".to_string(),
        channel_name: "Creator".to_string(),
        is_live: true,
        hls_url: None,
    };
    apply_player_hls(&mut page, None);
    assert!(!page.is_live);

    page.is_live = true;
    apply_player_hls(&mut page, Some("https://cdn.test/live.m3u8".to_string()));
    assert!(page.is_live);
    assert!(page.hls_url.is_some());
}

#[test]
fn balanced_json_ignores_braces_in_strings() {
    let input: Vec<char> = r#"{"message":"{not json}","ok":true} trailing"#.chars().collect();
    let value: String = balanced_json(&input).unwrap().into_iter().collect();
    assert_eq!(value, r#"{"message":"{not json}","ok":true}"#);
}
