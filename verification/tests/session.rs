use recorder::platforms::common::{
    retry_delay, retry_delay_with, status_poll_delay, status_poll_delay_with, LiveEdge, PollResult,
    Session,
};

fn recording_session() -> Session {
    Session {
        live: true,
        platform_live_id: "session-1".to_string(),
        live_id: "segment-1".to_string(),
        pre_live_id: Some("segment-1".to_string()),
        should_continue: true,
        recording: true,
        last_sequence: 42,
    }
}

#[test]
fn reset_recording_keeps_session_and_resume_state() {
    let mut s = recording_session();
    s.reset_recording();
    assert_eq!(s.platform_live_id, "session-1");
    assert!(s.live_id.is_empty());
    assert!(!s.recording);
    assert_eq!(s.last_sequence, 0);
    assert_eq!(s.pre_live_id.as_deref(), Some("segment-1"));
    assert!(s.should_continue);
    assert!(s.live);
}

#[test]
fn live_end_after_failed_restart_reports_session_without_recording() {
    let mut s = recording_session();
    s.reset_recording();
    // A restart that fails before it starts leaves no current live id.
    assert!(s.live_id.is_empty());
    let ended = s.end_live();
    assert_eq!(ended.platform_live_id, "session-1");
    assert!(ended.live_id.is_empty());
    assert!(!ended.recording);
    assert!(s.platform_live_id.is_empty());
    assert!(s.pre_live_id.is_none());
    assert!(!s.should_continue);
}

#[test]
fn next_live_id_resumes_only_the_same_recording() {
    let mut s = Session::new();
    s.platform_live_id = "broadcast-1".to_string();
    s.pre_live_id = Some("recording-1".to_string());
    s.should_continue = true;
    assert_eq!(s.next_live_id_at(1_700_000_000_000, true), "recording-1");
    assert!(!s.should_continue);
    assert_eq!(s.pre_live_id.as_deref(), Some("recording-1"));

    s.platform_live_id = "broadcast-2".to_string();
    s.pre_live_id = Some("recording-1".to_string());
    s.should_continue = true;
    let fresh = s.next_live_id_at(1_700_000_000_123, false);
    assert_ne!(fresh, "recording-1");
    assert_eq!(fresh, "1700000000123");
    assert_eq!(s.pre_live_id.as_deref(), Some(fresh.as_str()));
    assert!(!s.should_continue);
}

#[test]
fn next_live_id_without_resume_is_the_time() {
    let mut s = Session::new();
    assert_eq!(s.next_live_id_at(-5, true), "-5");
    assert_eq!(s.pre_live_id.as_deref(), Some("-5"));
    // Without a resume request the previous id is not reused.
    assert_eq!(s.next_live_id_at(77, true), "77");
    let id = s.next_live_id(true);
    assert!(!id.is_empty());
    assert_eq!(s.pre_live_id.as_deref(), Some(id.as_str()));
}

#[test]
fn expired_attempt_resumes_under_the_same_id() {
    let mut s = Session::new();
    s.live = true;
    let id = s.next_live_id_at(1_000, true);
    s.begin_recording(&id);
    assert!(s.recording);
    let end = s.finish_attempt(true);
    assert!(end.resume_now);
    let snap = end.record_end.expect("a started attempt owes RecordEnd");
    assert_eq!(snap.live_id, "1000");
    assert!(snap.recording);
    assert!(s.live_id.is_empty());
    assert_eq!(s.next_live_id_at(2_000, true), "1000");
}

#[test]
fn attempt_that_never_started_owes_no_record_end() {
    let mut s = recording_session();
    s.reset_recording();
    let end = s.finish_attempt(false);
    assert!(end.record_end.is_none());
    // The resume request set before is still pending.
    assert!(end.resume_now);
    let mut t = Session::new();
    let end = t.finish_attempt(false);
    assert!(end.record_end.is_none());
    assert!(!end.resume_now);
}

#[test]
fn poll_reports_live_start_and_clears_old_session() {
    let mut s = Session::new();
    s.pre_live_id = Some("old".to_string());
    s.should_continue = true;
    let check = s.apply_poll(PollResult::Polled {
        live: true,
        platform_live_id: Some("live-9".to_string()),
    });
    assert!(matches!(check.edge, Some(LiveEdge::Started)));
    assert!(check.cleared);
    assert_eq!(check.verdict, None);
    assert!(s.live);
    assert_eq!(s.platform_live_id, "live-9");
    assert!(s.pre_live_id.is_none());
    assert!(!s.should_continue);

    // Still live: no edge, nothing cleared, the id is refreshed.
    s.live_id = "rec".to_string();
    let check = s.apply_poll(PollResult::Polled { live: true, platform_live_id: None });
    assert!(check.edge.is_none());
    assert!(!check.cleared);
    assert_eq!(s.platform_live_id, "live-9");
    assert_eq!(s.live_id, "rec");
}

#[test]
fn poll_reports_live_end_with_the_session_snapshot() {
    let mut s = recording_session();
    let check = s.apply_poll(PollResult::Polled {
        live: false,
        platform_live_id: Some("ignored".to_string()),
    });
    match check.edge {
        Some(LiveEdge::Ended(snap)) => {
            assert_eq!(snap.platform_live_id, "session-1");
            assert_eq!(snap.live_id, "segment-1");
            assert!(snap.recording);
        },
        _ => panic!("expected a live end"),
    }
    assert!(check.cleared);
    assert_eq!(check.verdict, Some(false));
    assert!(!s.live);
    assert!(s.platform_live_id.is_empty());
    assert!(s.live_id.is_empty());
    assert!(s.pre_live_id.is_none());
}

#[test]
fn failed_poll_keeps_the_previous_status() {
    let mut s = recording_session();
    let check = s.apply_poll(PollResult::Failed { throttled: false });
    assert_eq!(check.verdict, Some(true));
    assert!(check.edge.is_none());
    assert!(!check.cleared);
    assert_eq!(s.live_id, "segment-1");
    let check = s.apply_poll(PollResult::Failed { throttled: true });
    assert_eq!(check.verdict, Some(false));
    assert!(s.live);
}

#[test]
fn poll_delays_follow_the_interval() {
    assert_eq!(status_poll_delay_with(5, 23), 11);
    assert_eq!(status_poll_delay_with(10, 10), 20);
    assert_eq!(status_poll_delay_with(30, 7), 32);
    assert_eq!(retry_delay_with(9), 3);
    for _ in 0..20 {
        let d = status_poll_delay(3);
        assert!((10..=20).contains(&d));
        let d = status_poll_delay(60);
        assert!((60..=64).contains(&d));
        let d = retry_delay();
        assert!((2..=5).contains(&d));
    }
}
