use recorder::errors::RecorderError;
use recorder::media::hls::{
    check_variant_key, pinned_variant, refreshed_variant, HlsVariantSelection, MediaVariant,
    new_segments_of, read_stored_sequence, round_end, sequence_text, store_decision, SegmentStore,
    UPDATE_TIMEOUT_MS,
};
use recorder::media::{Codec, Format, HlsStream};

fn stream(expire: i64) -> HlsStream {
    HlsStream::new(
        "live-1".to_string(),
        "https://host".to_string(),
        "/live/".to_string(),
        String::new(),
        Format::TS,
        Codec::Avc,
        expire,
    )
}

#[test]
fn only_segments_after_the_last_sequence_are_fetched() {
    assert_eq!(new_segments_of(100, 5, 101), vec![(2, 102), (3, 103), (4, 104)]);
    assert_eq!(new_segments_of(100, 3, 50), vec![(0, 100), (1, 101), (2, 102)]);
    assert_eq!(new_segments_of(100, 3, 102), vec![]);
    assert_eq!(new_segments_of(100, 3, 500), vec![]);
    assert_eq!(new_segments_of(0, 0, 0), vec![]);
    // The very first segment of a stream starting at sequence 0 counts as new only
    // when nothing was stored before it; 0 is the start value of the counter.
    assert_eq!(new_segments_of(0, 2, 0), vec![(1, 1)]);
}

#[test]
fn damaged_segments_go_behind_the_last_one() {
    assert_eq!(store_decision(true, true, None).ok(), Some(SegmentStore::Drop));
    assert_eq!(store_decision(true, false, Some(false)).ok(), Some(SegmentStore::AppendToLast));
    assert_eq!(
        store_decision(false, true, None).ok(),
        Some(SegmentStore::Add { first_shape: true })
    );
    assert_eq!(
        store_decision(false, false, Some(true)).ok(),
        Some(SegmentStore::Add { first_shape: false })
    );
    match store_decision(false, false, Some(false)) {
        Err(RecorderError::ResolutionChanged { err }) => assert_eq!(err, "Resolution changed"),
        _ => panic!("a new shape ends the recording"),
    }
}

#[test]
fn a_round_ends_on_stall_or_expiry() {
    let s = stream(0);
    let (emit, outcome) = round_end(1_000, 1_000 + UPDATE_TIMEOUT_MS + 1, true, &s, 10);
    assert!(!emit);
    assert!(matches!(outcome, Err(RecorderError::UpdateTimeout)));

    let (emit, outcome) = round_end(1_000, 1_000 + UPDATE_TIMEOUT_MS, true, &s, 10);
    assert!(emit);
    assert!(outcome.is_ok());

    let (emit, outcome) = round_end(1_000, 2_000, false, &s, 10);
    assert!(!emit);
    assert!(outcome.is_ok());

    let expiring = stream(1_000);
    let (emit, outcome) = round_end(1_000, 2_000, true, &expiring, 900);
    assert!(emit);
    assert!(matches!(outcome, Err(RecorderError::StreamExpired { expire: 1_000 })));

    let (_, outcome) = round_end(1_000, 2_000, true, &expiring, 800);
    assert!(outcome.is_ok());
}

#[test]
fn the_sequence_file_reads_back_what_was_written() {
    assert_eq!(read_stored_sequence("  42\n"), (42, false));
    assert_eq!(read_stored_sequence(""), (0, true));
    assert_eq!(read_stored_sequence(" \t\n"), (0, true));
    assert_eq!(read_stored_sequence("abc"), (0, false));
    assert_eq!(read_stored_sequence("+7"), (7, false));
    assert_eq!(read_stored_sequence("18446744073709551616"), (0, false));
    assert_eq!(sequence_text(323066244), "323066244");
    for n in [0u64, 9, 10, 323066246, u64::MAX] {
        assert_eq!(read_stored_sequence(&sequence_text(n)), (n, false));
    }
}

fn variant(uri: &str, bandwidth: u64, is_i_frame: bool) -> MediaVariant {
    MediaVariant { uri: uri.to_string(), bandwidth, average_bandwidth: None, is_i_frame }
}

#[test]
fn a_changed_best_variant_ends_the_recording() {
    assert!(check_variant_key(&None, "/live/720p.m3u8").is_ok());
    assert!(check_variant_key(&Some("/live/720p.m3u8".to_string()), "/live/720p.m3u8").is_ok());
    match check_variant_key(&Some("/live/720p.m3u8".to_string()), "/live/1080p.m3u8") {
        Err(RecorderError::ResolutionChanged { err }) => assert_eq!(
            err,
            "Highest-bandwidth HLS variant changed; starting a new recording segment"
        ),
        _ => panic!("expected a resolution change"),
    }
}

#[test]
fn the_pinned_variant_is_found_again_after_a_reload() {
    let master = "https://host.example/live/master.m3u8";
    let variants = vec![
        variant("iframe.m3u8", 9_000_000, true),
        variant("720p.m3u8", 2_000_000, false),
        variant("1080p.m3u8", 5_000_000, false),
    ];
    assert_eq!(pinned_variant(&variants, master, "/live/720p.m3u8"), Some(1));
    assert_eq!(pinned_variant(&variants, master, "/live/iframe.m3u8"), None);
    assert_eq!(
        refreshed_variant(&variants, master, "/live/720p.m3u8", HlsVariantSelection::HighestBandwidth),
        Some((1, true))
    );
    assert_eq!(
        refreshed_variant(&variants, master, "/live/480p.m3u8", HlsVariantSelection::HighestBandwidth),
        Some((2, false))
    );
    assert_eq!(
        refreshed_variant(&variants, master, "/live/480p.m3u8", HlsVariantSelection::First),
        Some((1, false))
    );
    assert_eq!(
        refreshed_variant(&variants[..1], master, "/live/480p.m3u8", HlsVariantSelection::First),
        None
    );
}
