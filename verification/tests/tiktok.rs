use recorder::platforms::tiktok::api::{
    append_codec, decode_json_string, extract_first_media_uri, extract_m3u8_from_html,
    normalize_image_url, resolve_uri,
};

#[test]
fn codec_is_added_to_the_query_once() {
    assert_eq!(append_codec("https://a.test/x.flv", "h264"), "https://a.test/x.flv?codec=h264");
    assert_eq!(append_codec("https://a.test/x.flv?a=1", "h264"), "https://a.test/x.flv?a=1&codec=h264");
    assert_eq!(append_codec("https://a.test/x.flv?codec=h265", "h264"), "https://a.test/x.flv?codec=h265");
    assert_eq!(append_codec("https://a.test/x.flv", ""), "https://a.test/x.flv");
}

#[test]
fn first_media_line_skips_tags_and_blanks() {
    assert_eq!(
        extract_first_media_uri("#EXTM3U\n\n#EXTINF:2,\n  seg1.ts \nseg2.ts\n").as_deref(),
        Some("seg1.ts")
    );
    assert_eq!(extract_first_media_uri("#EXTM3U\n"), None);
}

#[test]
fn relative_uris_are_joined_to_the_playlist() {
    assert_eq!(
        resolve_uri("https://cdn.test/live/index.m3u8", "seg.ts").as_deref(),
        Some("https://cdn.test/live/seg.ts")
    );
    assert_eq!(
        resolve_uri("not a url", "https://x.test/a.ts").as_deref(),
        Some("https://x.test/a.ts")
    );
    assert_eq!(resolve_uri("not a url", "seg.ts"), None);
}

#[test]
fn page_urls_are_unescaped() {
    assert_eq!(normalize_image_url(" //img.test/a.png"), "https://img.test/a.png");
    assert_eq!(decode_json_string("a\\u0026b").as_deref(), Some("a&b"));
    assert_eq!(
        extract_m3u8_from_html(r#"x "http://cdn.example/live\.m3u8?a=1" y"#).as_deref(),
        Some(r#"http://cdn.example/live\.m3u8?a=1"#)
    );
    assert_eq!(extract_m3u8_from_html("nothing here"), None);
}
