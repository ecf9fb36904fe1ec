use recorder::media::ads::{
    ad_range_for_segment, date_range_attributes, is_twitch_ad_range, is_twitch_ad_segment,
    playlist_daterange_lists, prune_ad_ranges, twitch_ad_time_range, AttributeValue, DateRangeInfo,
    MAX_AD_RANGES,
};
use recorder::media::hls::AdTimeRange;

fn range(id: &str, start: i64, end: i64) -> AdTimeRange {
    AdTimeRange { id: id.to_string(), start_ms: start, end_ms: end }
}

fn info(id: &str) -> DateRangeInfo {
    DateRangeInfo {
        id: id.to_string(),
        class: None,
        x_names: vec![],
        start_ms: 1000,
        end_ms: None,
        duration_end_ms: None,
    }
}

#[test]
fn attribute_lists_split_at_unquoted_commas() {
    let attrs = date_range_attributes(
        r#"ID="stitched-ad-1",CLASS="a,b", START-DATE="2024-01-01T00:00:00Z" ,DURATION=15.5,bad,=x,ID="second","#,
    );
    assert_eq!(
        attrs,
        vec![
            ("ID".to_string(), AttributeValue::Quoted("second".to_string())),
            ("CLASS".to_string(), AttributeValue::Quoted("a,b".to_string())),
            ("START-DATE".to_string(), AttributeValue::Quoted("2024-01-01T00:00:00Z".to_string())),
            ("DURATION".to_string(), AttributeValue::Unquoted("15.5".to_string())),
        ]
    );
    assert!(date_range_attributes("").is_empty());
    assert_eq!(
        date_range_attributes("X=\""),
        vec![("X".to_string(), AttributeValue::Unquoted("\"".to_string()))]
    );
}

#[test]
fn stitched_ads_are_recognised() {
    assert!(is_twitch_ad_range(&info("Stitched-Ad-77")));
    assert!(!is_twitch_ad_range(&info("program")));
    let mut classed = info("program");
    classed.class = Some("TWITCH-Stitched-AD".to_string());
    assert!(is_twitch_ad_range(&classed));
    let mut marked = info("program");
    marked.x_names = vec!["X-OTHER".to_string(), "X-TV-TWITCH-AD-URL".to_string()];
    assert!(is_twitch_ad_range(&marked));
}

#[test]
fn ad_windows_end_at_the_end_date_or_duration() {
    let mut r = info("stitched-ad-1");
    r.end_ms = Some(5000);
    r.duration_end_ms = Some(9000);
    assert_eq!(twitch_ad_time_range(&r), Some(range("stitched-ad-1", 1000, 5000)));
    r.end_ms = None;
    assert_eq!(twitch_ad_time_range(&r), Some(range("stitched-ad-1", 1000, 9000)));
    r.duration_end_ms = Some(1000);
    assert_eq!(twitch_ad_time_range(&r), None);
    assert_eq!(twitch_ad_time_range(&info("program")), None);
}

#[test]
fn segments_inside_known_windows_are_ads() {
    let known = vec![range("a", 100, 200), range("b", 150, 400)];
    assert!(is_twitch_ad_segment(None, Some(100), &known));
    assert!(!is_twitch_ad_segment(None, Some(400), &known));
    assert!(!is_twitch_ad_segment(None, None, &known));
    assert!(is_twitch_ad_segment(Some(&info("stitched-ad-9")), None, &known));
    assert_eq!(ad_range_for_segment(None, Some(160), &known), Some(range("a", 100, 200)));
    let mut own = info("stitched-ad-9");
    own.end_ms = Some(3000);
    assert_eq!(ad_range_for_segment(Some(&own), Some(50), &known), Some(range("stitched-ad-9", 1000, 3000)));
    assert_eq!(ad_range_for_segment(None, Some(50), &known), None);
}

#[test]
fn pruning_drops_ended_and_oldest_windows() {
    let mut rs = vec![range("a", 0, 10), range("b", 0, 30), range("c", 0, 20)];
    prune_ad_ranges(&mut rs, Some(15));
    assert_eq!(rs, vec![range("b", 0, 30), range("c", 0, 20)]);
    let mut many: Vec<AdTimeRange> = (0..200).map(|i| range(&format!("w{i}"), i, i + 1)).collect();
    prune_ad_ranges(&mut many, None);
    assert_eq!(many.len(), MAX_AD_RANGES);
    assert_eq!(many[0].id, "w72");
    let again = many.clone();
    prune_ad_ranges(&mut many, None);
    assert_eq!(many, again);
}

#[test]
fn daterange_lines_are_found_in_playlists() {
    let text = b"#EXTM3U\r\n#EXT-X-DATERANGE:ID=\"a\",CLASS=\"x\"\r\n#EXTINF:2,\nseg.ts\n#EXT-X-DATERANGE:ID=\"b\"";
    assert_eq!(playlist_daterange_lists(text), vec!["ID=\"a\",CLASS=\"x\"".to_string(), "ID=\"b\"".to_string()]);
}

#[test]
fn date_range_attributes_keep_commas_inside_quoted_values() {
    let attributes = date_range_attributes(
        r#"ID="stitched-ad-1",X-TV-TWITCH-AD-URL="https://ads.example/a,b",DURATION=2.5"#,
    );
    assert_eq!(attributes.len(), 3);
    let get = |name: &str| attributes.iter().find(|(k, _)| k == name).map(|(_, v)| v.clone());
    assert_eq!(
        get("X-TV-TWITCH-AD-URL"),
        Some(AttributeValue::Quoted("https://ads.example/a,b".to_string()))
    );
    assert_eq!(get("DURATION"), Some(AttributeValue::Unquoted("2.5".to_string())));
}
