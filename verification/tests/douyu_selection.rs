use recorder::platforms::douyu::api::DouyuApiError;
use recorder::platforms::douyu::selection::{
    CdnSelection, Phase, SelectionAction, SelectionEvent, StreamCandidate,
};

fn candidate(url: Option<&str>, cdns: &[&str], preferred_rate: Option<u64>) -> SelectionEvent {
    SelectionEvent::Candidate(StreamCandidate {
        url: url.map(str::to_string),
        cdns: cdns.iter().map(|c| c.to_string()).collect(),
        preferred_rate,
    })
}

fn expect_request(action: &SelectionAction, cdn: &str, rate: u64) {
    match action {
        SelectionAction::Request { cdn: c, rate: r } => {
            assert_eq!(c, cdn);
            assert_eq!(*r, rate);
        }
        other => panic!("expected a request, got {other:?}"),
    }
}

fn expect_stream(action: SelectionAction, url: &str, cdn: &str) {
    match action {
        SelectionAction::Finish(Ok(s)) => {
            assert_eq!(s.url, url);
            assert_eq!(s.cdn, cdn);
        }
        other => panic!("expected a stream, got {other:?}"),
    }
}

#[test]
fn the_automatic_cdn_is_asked_first_and_its_flv_url_taken() {
    let (s, a) = CdnSelection::start(None);
    expect_request(&a, "", 0);
    assert_eq!(s.phase(), Phase::AwaitCandidate);
    let (_, a) = s.step(candidate(Some("https://cdn.test/live/a.flv?t=1"), &["ws"], None));
    expect_stream(a, "https://cdn.test/live/a.flv?t=1", "");
}

#[test]
fn an_advertised_cdn_is_tried_when_the_default_is_not_flv() {
    let (s, _) = CdnSelection::start(None);
    let (s, a) = s.step(candidate(Some("https://cdn.test/live/a.m3u8"), &["", "scdn1", "ws"], None));
    expect_request(&a, "ws", 0);
    let (_, a) = s.step(candidate(Some("https://ws.test/live/a.flv"), &[], None));
    expect_stream(a, "https://ws.test/live/a.flv", "ws");
}

#[test]
fn the_preferred_rate_is_asked_for_and_the_source_kept() {
    let (s, _) = CdnSelection::start(None);
    let (s, a) = s.step(candidate(Some("https://cdn.test/src.flv"), &[], Some(2)));
    expect_request(&a, "", 2);
    assert_eq!(s.phase(), Phase::AwaitPreferred);
    let (_, a) = s.step(candidate(Some("https://cdn.test/hd.flv"), &[], None));
    expect_stream(a, "https://cdn.test/hd.flv", "");

    let (s, _) = CdnSelection::start(None);
    let (s, _) = s.step(candidate(Some("https://cdn.test/src.flv"), &[], Some(2)));
    let (_, a) = s.step(SelectionEvent::Failed(DouyuApiError::Api {
        endpoint: "getH5PlayV1".to_string(),
        code: -1,
        message: "rate unavailable".to_string(),
    }));
    expect_stream(a, "https://cdn.test/src.flv", "");
}

#[test]
fn a_timeout_falls_back_on_the_source_url() {
    let (s, _) = CdnSelection::start(None);
    let (s, _) = s.step(candidate(Some("https://cdn.test/src.flv"), &[], Some(2)));
    let (_, a) = s.step(SelectionEvent::TimedOut);
    expect_stream(a, "https://cdn.test/src.flv", "");
}

#[test]
fn a_failed_first_request_ends_the_selection() {
    let (s, _) = CdnSelection::start(None);
    let (_, a) = s.step(SelectionEvent::Failed(DouyuApiError::Offline {
        detail: "closed".to_string(),
    }));
    assert!(matches!(
        a,
        SelectionAction::Finish(Err(DouyuApiError::Offline { .. }))
    ));
}

#[test]
fn the_excluded_cdn_is_never_chosen() {
    let (s, _) = CdnSelection::start(Some(String::new()));
    let (s, a) = s.step(candidate(Some("https://cdn.test/src.flv"), &["tct"], None));
    expect_request(&a, "tct", 0);
    let (_, a) = s.step(candidate(Some("https://cdn.test/x.m3u8"), &[], None));
    match a {
        SelectionAction::Finish(Err(DouyuApiError::InvalidResponse { detail, .. })) => {
            assert_eq!(detail, "CDN tct did not return an AVC FLV URL");
        }
        other => panic!("unexpected {other:?}"),
    }
}
