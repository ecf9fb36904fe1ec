use recorder::media::hls::local_segment_filename;
use recorder::media::{Codec, Format, HlsStream};

fn make_stream(host: &str, base: &str, extra: &str, expire: i64) -> HlsStream {
    HlsStream::new(
        "test_live".to_string(),
        host.to_string(),
        base.to_string(),
        extra.to_string(),
        Format::TS,
        Codec::Avc,
        expire,
    )
}

#[test]
fn segment_uris_get_unique_local_names() {
    assert_eq!(
        local_segment_filename(
            1528,
            "https://rr5.googlevideo.com/videoplayback?itag=91&sig=secret"
        ),
        "segment-1528.ts"
    );
    assert_eq!(
        local_segment_filename(1529, "https://cdn.test/chunk-1.m4s?token=secret"),
        "segment-1529.m4s"
    );
    assert_eq!(
        local_segment_filename(3, "nested/3.ts?expires=1"),
        "segment-3.ts"
    );
    assert_ne!(
        local_segment_filename(3, "chunk.ts?seq=1"),
        local_segment_filename(4, "chunk.ts?seq=2")
    );
}

#[test]
fn test_hls_stream_index_with_extra() {
    let s = make_stream(
        "https://cdn.example.com",
        "/live/stream.m3u8?",
        "expire=999&token=abc",
        0,
    );
    assert_eq!(
        s.index(),
        "https://cdn.example.com/live/stream.m3u8?expire=999&token=abc"
    );
}

#[test]
fn test_hls_stream_index_without_extra() {
    let s = make_stream("https://cdn.example.com", "/live/stream.m3u8", "", 0);
    assert_eq!(s.index(), "https://cdn.example.com/live/stream.m3u8");
}

#[test]
fn test_ts_url_absolute() {
    let s = make_stream(
        "https://cdn.example.com",
        "/live/stream.m3u8?",
        "token=abc",
        0,
    );
    let url = s.ts_url("https://other.com/seg001.ts");
    assert_eq!(url, "https://other.com/seg001.ts");
}

#[test]
fn test_ts_url_relative_no_query() {
    let s = make_stream(
        "https://cdn.example.com",
        "/live/stream.m3u8?",
        "token=abc",
        0,
    );
    let url = s.ts_url("seg001.ts");
    assert_eq!(url, "https://cdn.example.com/live/seg001.ts?token=abc");
}

#[test]
fn test_ts_url_relative_with_query() {
    let s = make_stream(
        "https://cdn.example.com",
        "/live/stream.m3u8?",
        "token=abc",
        0,
    );
    let url = s.ts_url("seg001.ts?own_token=xyz");
    assert_eq!(url, "https://cdn.example.com/live/seg001.ts?own_token=xyz");
}

#[test]
fn test_ts_url_relative_no_extra() {
    let s = make_stream("https://cdn.example.com", "/live/stream.m3u8", "", 0);
    let url = s.ts_url("seg001.ts");
    assert_eq!(url, "https://cdn.example.com/live/seg001.ts");
}

#[test]
fn test_is_expired_zero_expire() {
    let s = make_stream("https://cdn.example.com", "/live/stream.m3u8", "", 0);
    assert!(!s.is_expired());
}

#[test]
fn test_is_expired_past() {
    let s = make_stream("https://cdn.example.com", "/live/stream.m3u8", "", 1000);
    assert!(s.is_expired());
}

#[test]
fn test_is_expired_far_future() {
    let far_future = chrono::Utc::now().timestamp() + 100000;
    let s = make_stream(
        "https://cdn.example.com",
        "/live/stream.m3u8",
        "",
        far_future,
    );
    assert!(!s.is_expired());
}

#[test]
fn test_format_display() {
    assert_eq!(Format::Flv.to_string(), "Flv");
    assert_eq!(Format::TS.to_string(), "TS");
    assert_eq!(Format::FMP4.to_string(), "FMP4");
}

#[test]
fn test_codec_display() {
    assert_eq!(Codec::Avc.to_string(), "Avc");
    assert_eq!(Codec::Hevc.to_string(), "Hevc");
}

#[test]
fn test_format_equality() {
    assert_eq!(Format::Flv, Format::Flv);
    assert_ne!(Format::Flv, Format::TS);
}

#[test]
fn test_codec_equality() {
    assert_eq!(Codec::Avc, Codec::Avc);
    assert_ne!(Codec::Avc, Codec::Hevc);
}

#[test]
fn expiry_is_judged_against_the_given_time() {
    let s = make_stream("https://cdn.example.com", "/live/stream.m3u8", "", 2000);
    assert!(s.is_expired_at(1900));
    assert!(!s.is_expired_at(100));
}

#[test]
fn content_preview_is_bounded_and_escaped() {
    let preview = recorder::media::playlist::playlist_content_preview(&vec![0; 1024]);

    assert!(preview.len() < 2048);
    assert!(preview.ends_with("..."));
    assert!(preview.contains("\\0"));
}
