use recorder::errors::RecorderError;
use recorder::json::Json;
use recorder::platforms::bilibili::answers::{
    qr_from_answer, qr_status_from_answer, room_info_from_answer, user_info_from_answer,
};

fn obj(members: Vec<(&str, Json)>) -> Json {
    Json::Object(members.into_iter().map(|(k, v)| (k.to_string(), v)).collect())
}

fn s(t: &str) -> Json {
    Json::Str(t.to_string())
}

fn room_answer(live_time: &str) -> Json {
    obj(vec![
        ("code", Json::PosInt(0)),
        (
            "data",
            obj(vec![
                ("room_id", Json::PosInt(31368705)),
                ("title", s("t")),
                ("user_cover", s("https://cover")),
                ("keyframe", s("https://key")),
                ("uid", Json::PosInt(42)),
                ("live_status", Json::PosInt(257)),
                ("live_time", s(live_time)),
            ]),
        ),
    ])
}

#[test]
fn room_answers_are_read() {
    let room = room_info_from_answer(room_answer("2025-08-09 18:33:35")).unwrap();
    assert_eq!(room.room_id, "31368705");
    assert_eq!(room.user_id, "42");
    assert_eq!(room.live_status, 1);
    assert_eq!(room.room_keyframe_url, "https://key");
    assert_eq!(room.live_start_time, 1754764415 - 8 * 3600);
    let offline = room_info_from_answer(room_answer("0000-00-00 00:00:00")).unwrap();
    assert_eq!(offline.live_start_time, 0);
    assert!(matches!(room_info_from_answer(room_answer("yesterday")), Err(RecorderError::InvalidValue)));
}

#[test]
fn refused_answers_carry_the_document() {
    let refused = obj(vec![("code", Json::NegInt(-1)), ("message", s("no"))]);
    match room_info_from_answer(refused) {
        Err(RecorderError::InvalidResponseJson { resp }) => match resp {
            Json::Object(m) => assert_eq!(m.len(), 2),
            _ => panic!("document changed"),
        },
        _ => panic!("expected the answer back"),
    }
    let missing = obj(vec![("code", Json::PosInt(0))]);
    assert!(matches!(room_info_from_answer(missing), Err(RecorderError::InvalidValue)));
}

#[test]
fn user_answers_default_to_empty_texts() {
    let answer = obj(vec![("code", Json::PosInt(0)), ("data", obj(vec![("name", s("up"))]))]);
    let u = user_info_from_answer("7", answer).unwrap();
    assert_eq!((u.user_id.as_str(), u.user_name.as_str(), u.user_sign.as_str()), ("7", "up", ""));
    let refused = obj(vec![("code", Json::NegInt(-101))]);
    assert!(matches!(user_info_from_answer("7", refused), Err(RecorderError::InvalidResponseJson { .. })));
}

#[test]
fn qr_answers_are_read() {
    let answer = obj(vec![("data", obj(vec![("qrcode_key", s("k")), ("url", s("https://qr"))]))]);
    let qr = qr_from_answer(&answer).unwrap();
    assert_eq!((qr.oauth_key.as_str(), qr.url.as_str()), ("k", "https://qr"));
    assert!(matches!(qr_from_answer(&obj(vec![])), Err(RecorderError::InvalidValue)));

    let done = obj(vec![(
        "data",
        obj(vec![("code", Json::PosInt(0)), ("url", s("https://x/?a=1&b=2"))]),
    )]);
    let st = qr_status_from_answer(&done).unwrap();
    assert_eq!((st.code, st.cookies.as_str()), (0, "a=1;b=2"));
    let waiting = obj(vec![("data", obj(vec![("code", Json::PosInt(86101))]))]);
    assert_eq!(qr_status_from_answer(&waiting).unwrap().code, (86101u64 % 256) as u8);
    assert_eq!(qr_status_from_answer(&obj(vec![])).unwrap().code, 144);
    let broken = obj(vec![("data", obj(vec![("code", Json::PosInt(0))]))]);
    assert!(matches!(qr_status_from_answer(&broken), Err(RecorderError::InvalidValue)));
}
