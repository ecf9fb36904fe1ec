use recorder::danmu::LiveEvent;
use recorder::events::DanmuReceived;
use recorder::json::Json;

fn data(members: Vec<(&str, Json)>) -> Json {
    Json::Object(members.into_iter().map(|(k, v)| (k.to_string(), v)).collect())
}

fn s(t: &str) -> Json {
    Json::Str(t.to_string())
}

fn event(ts: i64, event_type: &str, data: Json) -> LiveEvent {
    LiveEvent {
        ts,
        platform: "bilibili".into(),
        room_id: "123".into(),
        event_type: event_type.into(),
        data,
    }
}

#[test]
fn live_danmu_event_keeps_user_name_for_realtime_preview() {
    let e = event(1_700_000_000_123, "danmu", data(vec![("content", s("hello")), ("user_name", s("alice"))]));
    let received = DanmuReceived::danmu_received_from_event("123".into(), &e).unwrap();
    assert_eq!(received.room, "123");
    assert_eq!(received.ts, 1_700_000_000_123);
    assert_eq!(received.event_type, "danmu");
    assert_eq!(received.content, "hello");
    assert_eq!(received.user_name.as_deref(), Some("alice"));
    assert_eq!(received.price, None);
    assert_eq!(received.sc_duration, None);
}

#[test]
fn live_super_chat_event_keeps_price_and_duration() {
    let e = event(
        1_700_000_001_000,
        "super_chat",
        data(vec![
            ("content", s("hello sc")),
            ("user_name", s("alice")),
            ("price", Json::PosInt(30)),
            ("duration", Json::PosInt(60)),
        ]),
    );
    let received = DanmuReceived::danmu_received_from_event("123".into(), &e).unwrap();
    assert_eq!(received.event_type, "super_chat");
    assert_eq!(received.content, "hello sc");
    assert_eq!(received.price, Some(30));
    assert_eq!(received.sc_duration, Some(60));
}

#[test]
fn live_danmu_event_drops_blank_user_name() {
    let e = event(1, "danmu", data(vec![("content", s("hi")), ("user_name", s("  "))]));
    let received = DanmuReceived::danmu_received_from_event("1".into(), &e).unwrap();
    assert_eq!(received.user_name, None);
}

#[test]
fn ignores_non_danmu_live_events() {
    let e = event(1, "gift", data(vec![("user_name", s("alice")), ("gift_name", s("花束"))]));
    assert!(DanmuReceived::danmu_received_from_event("1".into(), &e).is_none());
}
