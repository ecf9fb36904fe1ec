use recorder::media::stream_info::{CdnNode, Codec, Format, Quality, RecorderType, StreamVariant};
use recorder::platforms::PlatformType;
use recorder::CachePath;

fn variant(url: &str, format: Format) -> StreamVariant {
    StreamVariant { url: url.to_string(), format, codec: Codec::AVC, quality: Quality::Origin, bitrate: None }
}

#[test]
fn hls_variant_rebuilds_its_url() {
    let v = variant("https://cdn.example.com/live/a.m3u8?expire=100", Format::HLS);
    let s = v.to_hls_stream("live".to_string(), None).unwrap();
    assert_eq!(s.host, "https://cdn.example.com");
    assert_eq!(s.base, "/live/a.m3u8?");
    assert_eq!(s.extra, "expire=100");
    assert_eq!(s.expire, 100);
    assert_eq!(s.index(), v.url);

    let plain = variant("https://cdn.example.com/live/a.m3u8", Format::HLS);
    let s = plain.to_hls_stream("live".to_string(), None).unwrap();
    assert_eq!(s.base, "/live/a.m3u8");
    assert_eq!(s.index(), plain.url);

    let node = CdnNode { host: "edge.example.net".to_string(), priority: 1 };
    let s = v.to_hls_stream("live".to_string(), Some(&node)).unwrap();
    assert_eq!(s.index(), "https://edge.example.net/live/a.m3u8?expire=100");
}

#[test]
fn recorder_type_follows_the_format() {
    let v = variant("https://cdn.example.com/live/a.m3u8?expire=100", Format::HLS);
    match v.to_recorder_type("live".to_string(), None).unwrap() {
        RecorderType::Hls(s) => assert_eq!(s.index(), v.url),
        RecorderType::Flv(_) => panic!("expected HLS"),
    }
    assert!(variant("not a url", Format::HLS).to_recorder_type("live".to_string(), None).is_err());
    match variant("https://f/x.flv", Format::FLV).to_recorder_type("live".to_string(), None).unwrap() {
        RecorderType::Flv(u) => assert_eq!(u, "https://f/x.flv"),
        RecorderType::Hls(_) => panic!("expected FLV"),
    }
}

#[test]
fn file_names_are_made_safe() {
    let c = CachePath::new("/cache".to_string(), PlatformType::BiliBili, 1, "123");
    assert_eq!(c.with_filename("cover.jpg").file_name.as_deref(), Some("cover.jpg"));
    assert_eq!(c.with_filename("a:b?c*.jpg").file_name.as_deref(), Some("abc.jpg"));
    assert_eq!(c.with_filename("..").file_name.as_deref(), Some(""));
    let long = "x".repeat(300);
    assert_eq!(c.with_filename(&long).file_name.unwrap().len(), 255);
}
