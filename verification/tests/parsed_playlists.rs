use recorder::errors::RecorderError;
use recorder::media::hls::{
    master_variant_index, media_segments, parsed_variant_identity, read_playlist_shape, HlsVariantSelection,
};
use recorder::media::stream_info::{hls_stream_of_url, host_of_url, Codec};
use recorder::outside::{parse_url, ParsedUrl};
use recorder::platforms::douyu::api::is_flv_parsed_url;
use recorder::platforms::huya::extractor::stream_id_of_path;
use recorder::platforms::twitch::api::{channel_of_parsed_url, media_playlist_url};
use recorder::platforms::youtube::page::video_param_of_url;
use recorder::platforms::youtube::room_id_of_url;

const MASTER: &[u8] = b"#EXTM3U\n#EXT-X-STREAM-INF:BANDWIDTH=160000\nlow.m3u8\n#EXT-X-STREAM-INF:BANDWIDTH=6000000\nhigh.m3u8\n#EXT-X-STREAM-INF:BANDWIDTH=900000\nmid.m3u8\n";
const MEDIA: &[u8] = b"#EXTM3U\n#EXT-X-TARGETDURATION:2\n#EXTINF:2.0,\na.ts\n";
const TIED: &[u8] = b"#EXTM3U\n#EXT-X-STREAM-INF:BANDWIDTH=6000000\nfirst.m3u8\n#EXT-X-STREAM-INF:BANDWIDTH=6000000\nsecond.m3u8\n";

fn parts(scheme: &str, host: Option<&str>, path: &str, query: Option<&str>, segs: Option<Vec<&str>>) -> ParsedUrl {
    ParsedUrl {
        scheme: scheme.to_string(),
        host: host.map(|h| h.to_string()),
        path: path.to_string(),
        query: query.map(|q| q.to_string()),
        path_segments: segs.map(|v| v.into_iter().map(|s| s.to_string()).collect()),
    }
}

#[test]
fn a_media_playlist_is_its_own_media_playlist() {
    let url = media_playlist_url("https://usher.test/api/ninja.m3u8?sig=1", MEDIA).unwrap();
    assert_eq!(url, "https://usher.test/api/ninja.m3u8?sig=1");
}

#[test]
fn a_master_playlist_gives_its_variant_of_greatest_bandwidth() {
    let url = media_playlist_url("https://usher.test/api/ninja.m3u8?sig=1", MASTER).unwrap();
    assert_eq!(url, "https://usher.test/api/high.m3u8");
    let tied = media_playlist_url("https://usher.test/api/ninja.m3u8", TIED).unwrap();
    assert_eq!(tied, "https://usher.test/api/second.m3u8");
}

#[test]
fn playlist_bytes_that_do_not_parse_are_refused() {
    match media_playlist_url("https://usher.test/x.m3u8", b"<html>denied</html>") {
        Err(RecorderError::M3u8ParseFailed { content }) => {
            assert_eq!(content, "Twitch returned an invalid HLS playlist")
        }
        _ => panic!("expected the invalid playlist error"),
    }
}

#[test]
fn a_master_playlist_of_a_bad_base_url_is_an_invalid_response() {
    assert!(matches!(media_playlist_url("not a url", MASTER), Err(RecorderError::InvalidResponse)));
}

#[test]
fn playlist_shapes_are_read_from_the_bytes() {
    let master = read_playlist_shape(MASTER).unwrap();
    assert!(master.master);
    let uris: Vec<&str> = master.variants.iter().map(|v| v.uri.as_str()).collect();
    assert_eq!(uris, vec!["low.m3u8", "high.m3u8", "mid.m3u8"]);
    assert_eq!(master.variants[1].bandwidth, 6000000);
    let media = read_playlist_shape(MEDIA).unwrap();
    assert!(!media.master);
    assert!(media.variants.is_empty());
    match read_playlist_shape(b"garbage") {
        Err(RecorderError::M3u8ParseFailed { content }) => assert_eq!(content, "garbage"),
        _ => panic!("expected a preview of the content"),
    }
}

#[test]
fn the_master_variant_index_follows_the_selection() {
    assert_eq!(master_variant_index(MASTER, HlsVariantSelection::First), Some(0));
    assert_eq!(master_variant_index(MASTER, HlsVariantSelection::HighestBandwidth), Some(1));
    assert_eq!(master_variant_index(MEDIA, HlsVariantSelection::First), None);
    assert_eq!(master_variant_index(b"garbage", HlsVariantSelection::HighestBandwidth), None);
}

#[test]
fn a_parsed_variant_url_becomes_a_stream() {
    let u = parts("https", Some("cdn.test"), "/live/a.m3u8", Some("expire=1700000000&x=1"), Some(vec!["live", "a.m3u8"]));
    let s = hls_stream_of_url(&u, "42".to_string(), Codec::AVC);
    assert_eq!(s.id, "42");
    assert_eq!(s.host, "https://cdn.test");
    assert_eq!(s.base, "/live/a.m3u8?");
    assert_eq!(s.extra, "expire=1700000000&x=1");
    assert_eq!(s.expire, 1700000000);
    assert_eq!(s.index(), "https://cdn.test/live/a.m3u8?expire=1700000000&x=1");
    let bare = parts("http", Some("h.test"), "/p.m3u8", None, None);
    let b = hls_stream_of_url(&bare, "1".to_string(), Codec::HEVC);
    assert_eq!((b.base.as_str(), b.extra.as_str(), b.expire), ("/p.m3u8", "", 0));
    let odd = parts("https", Some("h.test"), "/p.m3u8", Some("expire=soon"), None);
    assert_eq!(hls_stream_of_url(&odd, "1".to_string(), Codec::AVC).expire, 0);
}

#[test]
fn hosts_of_parsed_urls() {
    assert_eq!(host_of_url(parts("https", Some("a.test"), "/", None, None)), "a.test");
    assert_eq!(host_of_url(parts("data", None, "text", None, None)), "");
    assert_eq!(host_of_url(parse_url("https://b.test:8080/x").unwrap()), "b.test");
}

#[test]
fn variant_keys_of_parsed_urls() {
    let itag = parts("https", Some("yt.test"), "/x/itag/301/y", None, Some(vec!["x", "itag", "301", "y"]));
    assert_eq!(parsed_variant_identity(itag), "itag:301");
    let plain = parts("https", Some("cdn.test"), "/live/chunk.m3u8", None, Some(vec!["live", "chunk.m3u8"]));
    assert_eq!(parsed_variant_identity(plain), "/live/chunk.m3u8");
    let trailing = parts("https", Some("cdn.test"), "/a/itag", None, Some(vec!["a", "itag"]));
    assert_eq!(parsed_variant_identity(trailing), "/a/itag");
}

#[test]
fn room_keys_of_parsed_youtube_urls() {
    let watch = parts("https", Some("www.YouTube.com"), "/watch", Some("v=dQw4w9WgXcQ"), Some(vec!["watch"]));
    assert_eq!(room_id_of_url(&watch).unwrap(), "dQw4w9WgXcQ");
    let handle = parts("https", Some("youtube.com"), "/@someone/live", None, Some(vec!["@someone", "live"]));
    assert_eq!(room_id_of_url(&handle).unwrap(), "@someone");
    let other = parts("https", Some("example.com"), "/watch", Some("v=dQw4w9WgXcQ"), Some(vec!["watch"]));
    assert!(matches!(room_id_of_url(&other), Err(RecorderError::InvalidValue)));
}

#[test]
fn channels_of_parsed_twitch_urls() {
    let live = parts("https", Some("www.twitch.tv"), "/Ninja/live", None, Some(vec!["Ninja", "live"]));
    assert_eq!(channel_of_parsed_url(&live).as_deref(), Some("Ninja"));
    let deep = parts("https", Some("twitch.tv"), "/ninja/videos", None, Some(vec!["ninja", "videos"]));
    assert_eq!(channel_of_parsed_url(&deep), None);
    let elsewhere = parts("https", Some("example.com"), "/ninja", None, Some(vec!["ninja"]));
    assert_eq!(channel_of_parsed_url(&elsewhere), None);
}

#[test]
fn flv_urls_by_their_parts() {
    assert!(is_flv_parsed_url(&parts("https", Some("a.test"), "/live/1.flv", None, None)));
    assert!(!is_flv_parsed_url(&parts("rtmp", Some("a.test"), "/live/1.flv", None, None)));
    assert!(!is_flv_parsed_url(&parts("http", Some("a.test"), "/live/1.m3u8", None, None)));
}

#[test]
fn video_params_of_parsed_urls() {
    let u = parts("https", Some("y.test"), "/watch", Some("list=x&v=abc&v=def"), None);
    assert_eq!(video_param_of_url(&u).as_deref(), Some("abc"));
    assert_eq!(video_param_of_url(&parts("https", Some("y.test"), "/watch", None, None)), None);
}

#[test]
fn stream_ids_of_url_paths() {
    assert_eq!(stream_id_of_path("/src/1199-abc.m3u8"), "1199-abc");
    assert_eq!(stream_id_of_path("/src/plain"), "plain");
}

#[test]
fn room_page_urls_normalize_back_to_their_keys() {
    use_room_keys(&["dQw4w9WgXcQ", "UC123abc", "@creator", "@a.b-c_d%20", "legacy-c-old.name", "legacy-user-someone"]);
}

#[test]
fn a_non_ascii_handle_comes_back_percent_encoded() {
    let page = recorder::platforms::youtube::youtube_room_url("@Créateur").unwrap();
    assert_eq!(page, "https://www.youtube.com/@Créateur/live");
    assert_eq!(recorder::platforms::youtube::normalize_room_id(&page).unwrap(), "@Cr%C3%A9ateur");
}

fn use_room_keys(keys: &[&str]) {
    for key in keys {
        assert_eq!(recorder::platforms::youtube::normalize_room_id(key).unwrap(), *key);
        let page = recorder::platforms::youtube::youtube_room_url(key).unwrap();
        assert_eq!(recorder::platforms::youtube::normalize_room_id(&page).unwrap(), *key);
        let parsed = parse_url(&page).unwrap();
        assert_eq!(room_id_of_url(&parsed).unwrap(), *key);
    }
}

#[test]
fn media_playlists_give_their_sequence_and_segments() {
    let bytes = b"#EXTM3U\n#EXT-X-TARGETDURATION:2\n#EXT-X-MEDIA-SEQUENCE:41\n#EXTINF:2.0,\na.ts\n#EXTINF:2.0,\nb.ts\n";
    let (sequence, uris) = media_segments(bytes).unwrap();
    assert_eq!(sequence, 41);
    assert_eq!(uris, vec!["a.ts".to_string(), "b.ts".to_string()]);
    assert_eq!(media_segments(MEDIA).unwrap(), (0, vec!["a.ts".to_string()]));
    assert_eq!(media_segments(MASTER), None);
    assert_eq!(media_segments(b"garbage"), None);
    let master = read_playlist_shape(MASTER).unwrap();
    assert_eq!((master.media_sequence, master.segment_uris.len()), (0, 0));
}
