//! Douyin room data as the web API reports it, the room API addresses and
//! what an unreadable answer of the H5 room API means.
use vstd::prelude::*;

use crate::errors::RecorderError;
use crate::json::{i64_member, str_member, Json};
use crate::text::{append_str, chars_of, contains, contains_str, push_signed_decimal, signed_decimal, string_of};
use vstd::string::StringExecFns;

verus! {

/// The room fields read from Douyin's web room API.
#[derive(Debug, Clone)]
pub struct DouyinBasicRoomInfo {
    pub room_id_str: String,
    pub room_title: String,
    pub cover: Option<String>,
    pub status: i64,
    pub hls_url: String,
    pub stream_data: String,
    pub user_name: String,
    pub user_avatar: String,
    pub sec_user_id: String,
}


/// The query of the web room API for a room: its fixed client parameters,
/// `web_rid` and `ms_token`.
pub open spec fn web_enter_query(room_id: i64, ms_token: Seq<char>) -> Seq<char> {
    "aid=6383&app_name=douyin_web&live_id=1&device_platform=web&language=zh-CN&enter_from=web_live&cookie_enabled=true&screen_width=1920&screen_height=1080&browser_language=zh-CN&browser_platform=MacIntel&browser_name=Chrome&browser_version=122.0.0.0&web_rid="@
        + signed_decimal(room_id as int) + "&ms_token="@ + ms_token
}

/// The parameters signed for the web room API (see `web_enter_query`).
pub fn web_enter_params(room_id: i64, ms_token: &str) -> (r: String)
    ensures
        r@ == web_enter_query(room_id, ms_token@),
{
    let mut v = chars_of(
        "aid=6383&app_name=douyin_web&live_id=1&device_platform=web&language=zh-CN&enter_from=web_live&cookie_enabled=true&screen_width=1920&screen_height=1080&browser_language=zh-CN&browser_platform=MacIntel&browser_name=Chrome&browser_version=122.0.0.0&web_rid=",
    );
    push_signed_decimal(&mut v, room_id);
    append_str(&mut v, "&ms_token=");
    append_str(&mut v, ms_token);
    string_of(&v)
}

/// The web room API address: its query with the `a_bogus` signature added.
pub fn web_enter_url(room_id: i64, ms_token: &str, a_bogus: &str) -> (r: String)
    ensures
        r@ == "https://live.douyin.com/webcast/room/web/enter/?"@ + web_enter_query(room_id, ms_token@)
            + "&a_bogus="@ + a_bogus@,
{
    let mut v = chars_of("https://live.douyin.com/webcast/room/web/enter/?");
    append_str(&mut v, web_enter_params(room_id, ms_token).as_str());
    append_str(&mut v, "&a_bogus=");
    append_str(&mut v, a_bogus);
    string_of(&v)
}

/// The H5 room API address for a room and its owner.
pub open spec fn h5_room_url(room_id: i64, sec_user_id: Seq<char>) -> Seq<char> {
    "https://webcast.amemv.com/webcast/room/reflow/info/?type_id=0&live_id=1&version_code=99.99.99&app_id=1128&room_id="@
        + signed_decimal(room_id as int) + "&sec_user_id="@ + sec_user_id
        + "&aid=6383&device_platform=web"@
}

pub fn h5_room_info_url(room_id: i64, sec_user_id: &str) -> (r: String)
    ensures
        r@ == h5_room_url(room_id, sec_user_id@),
{
    let mut v = chars_of(
        "https://webcast.amemv.com/webcast/room/reflow/info/?type_id=0&live_id=1&version_code=99.99.99&app_id=1128&room_id=",
    );
    push_signed_decimal(&mut v, room_id);
    append_str(&mut v, "&sec_user_id=");
    append_str(&mut v, sec_user_id);
    append_str(&mut v, "&aid=6383&device_platform=web");
    string_of(&v)
}

/// The message for a session the API no longer accepts.
pub open spec fn invalid_session_message() -> Seq<char> {
    "Invalid session - please check your cookies. Make sure you have valid sessionid, passport_csrf_token, and other authentication cookies from douyin.com"@
}

/// What an H5 room answer that is JSON but not a room says: a non-zero
/// `status_code` is an error with the answer's `data.message` (else
/// "Unknown error"), alone for code 10011 and after the code otherwise; a
/// `status_message` that mentions an invalid session asks for valid
/// cookies; anything else is an unreadable answer, quoted whole.
pub open spec fn h5_error_message(value: Json, text: Seq<char>) -> Seq<char> {
    let code = i64_member(value, "status_code"@);
    if code is Some && code->0 != 0 {
        let c = code->0;
        let msg = match value.lookup("data"@) {
            Some(d) => match str_member(d, "message"@) {
                Some(m) => m,
                None => "Unknown error"@,
            },
            None => "Unknown error"@,
        };
        if c == 10011 {
            msg
        } else {
            "API returned error status_code: "@ + signed_decimal(c as int) + " - "@ + msg
        }
    } else {
        match str_member(value, "status_message"@) {
            Some(m) => if contains(m, "invalid session"@) {
                invalid_session_message()
            } else {
                "Failed to parse h5 room info response: "@ + text
            },
            None => "Failed to parse h5 room info response: "@ + text,
        }
    }
}

/// The error for an H5 room answer `text` that parsed as JSON (`value`) but
/// not as a room (see `h5_error_message`).
pub fn h5_room_error(value: &Json, text: &str) -> (r: RecorderError)
    ensures
        r matches RecorderError::ApiError { error } && error@ == h5_error_message(*value, text@),
{
    if let Some(code) = value.get_i64("status_code") {
        if code != 0 {
            let msg = match value.get("data") {
                Some(d) => match d.get_str("message") {
                    Some(m) => m,
                    None => String::from_str("Unknown error"),
                },
                None => String::from_str("Unknown error"),
            };
            if code == 10011 {
                return RecorderError::ApiError { error: msg };
            }
            let mut v = chars_of("API returned error status_code: ");
            push_signed_decimal(&mut v, code);
            append_str(&mut v, " - ");
            append_str(&mut v, msg.as_str());
            return RecorderError::ApiError { error: string_of(&v) };
        }
    }
    if let Some(m) = value.get_str("status_message") {
        if contains_str(&chars_of(m.as_str()), "invalid session") {
            return RecorderError::ApiError {
                error: String::from_str(
                    "Invalid session - please check your cookies. Make sure you have valid sessionid, passport_csrf_token, and other authentication cookies from douyin.com",
                ),
            };
        }
    }
    let mut v = chars_of("Failed to parse h5 room info response: ");
    append_str(&mut v, text);
    RecorderError::ApiError { error: string_of(&v) }
}


// ---------------------------------------------------------------------------
// The H5 room answer
// ---------------------------------------------------------------------------

/// The items of a JSON array that holds only strings.
pub open spec fn string_list(v: Option<Json>) -> Option<Seq<Json>> {
    match v {
        Some(Json::Array(items)) => if forall|i: int| 0 <= i < items@.len() ==> #[trigger] items@[i] is Str {
            Some(items@)
        } else {
            None
        },
        _ => None,
    }
}

/// The first string of a list of strings, if any.
pub open spec fn first_text(items: Seq<Json>) -> Option<Seq<char>> {
    if items.len() > 0 {
        items[0].str_value()
    } else {
        None
    }
}

/// An image object `{url_list: [..]}`: `Some` of its first URL (if any)
/// when it has that shape, `None` when it has not.
pub open spec fn image_first_url(v: Option<Json>) -> Option<Option<Seq<char>>> {
    match v {
        Some(Json::Object(_)) => match string_list(v->0.lookup("url_list"@)) {
            Some(items) => Some(first_text(items)),
            None => None,
        },
        _ => None,
    }
}

/// Whether an optional member is absent or null.
pub open spec fn absent(v: Option<Json>) -> bool {
    v is None || v == Some(Json::Null)
}

/// The stream part of an H5 room: `Some((hls_pull_url, stream_data))` for a
/// well-formed `stream_url` object, `None` otherwise.
pub open spec fn h5_stream(v: Json) -> Option<(Seq<char>, Seq<char>)> {
    let pull = crate::json::at(crate::json::at(Some(v), "live_core_sdk_data"@), "pull_data"@);
    match (v, str_member(v, "hls_pull_url"@), pull) {
        (Json::Object(_), Some(hls), Some(p)) => match (crate::json::at(Some(v), "live_core_sdk_data"@), p) {
            (Some(Json::Object(_)), Json::Object(_)) => match str_member(p, "stream_data"@) {
                Some(d) => Some((hls, d)),
                None => None,
            },
            _ => None,
        },
        _ => None,
    }
}

/// The room that an H5 room answer describes, as the fields of
/// `DouyinBasicRoomInfo` (room id, title, cover, status, HLS URL, stream
/// data, owner name, avatar, owner id), or `None` when the answer does not
/// have the room shape: `data.room` with the texts `id_str` and `title`,
/// the integer `status`, an `owner` with the texts `nickname` and `sec_uid`
/// and an `avatar_thumb` image, and optionally a `cover` image and a
/// `stream_url`. The status is 0 (live) when the room's status is 2 and 1
/// otherwise; the cover and the avatar are the first URL of their lists
/// (the avatar empty when the list is); without a stream the HLS URL and the
/// stream data are empty.
pub open spec fn h5_basic_room(answer: Json) -> Option<
    (Seq<char>, Seq<char>, Option<Seq<char>>, i64, Seq<char>, Seq<char>, Seq<char>, Seq<char>, Seq<char>),
> {
    let data = answer.lookup("data"@);
    let room = crate::json::at(data, "room"@);
    let owner = crate::json::at(room, "owner"@);
    if !(answer is Object && (data matches Some(Json::Object(_))) && (room matches Some(Json::Object(_)))
        && (owner matches Some(Json::Object(_)))) {
        None
    } else {
        let r = room->0;
        let o = owner->0;
        let cover = if absent(r.lookup("cover"@)) {
            Some(None)
        } else {
            image_first_url(r.lookup("cover"@))
        };
        let stream = if absent(r.lookup("stream_url"@)) {
            Some(None)
        } else {
            match h5_stream(r.lookup("stream_url"@)->0) {
                Some(st) => Some(Some(st)),
                None => None,
            }
        };
        match (
            str_member(r, "id_str"@),
            str_member(r, "title"@),
            i64_member(r, "status"@),
            str_member(o, "nickname"@),
            str_member(o, "sec_uid"@),
            image_first_url(o.lookup("avatar_thumb"@)),
            cover,
            stream,
        ) {
            (Some(id), Some(title), Some(status), Some(nick), Some(sec), Some(avatar), Some(cov), Some(st)) => {
                let (hls, sd) = match st {
                    Some(p) => p,
                    None => (Seq::empty(), Seq::empty()),
                };
                Some(
                    (
                        id,
                        title,
                        cov,
                        if status == 2 {
                            0i64
                        } else {
                            1i64
                        },
                        hls,
                        sd,
                        nick,
                        match avatar {
                            Some(a) => a,
                            None => Seq::empty(),
                        },
                        sec,
                    ),
                )
            },
            _ => None,
        }
    }
}

/// A room as values, in the order of `h5_basic_room`.
pub open spec fn basic_room_view(r: DouyinBasicRoomInfo) -> (
    Seq<char>,
    Seq<char>,
    Option<Seq<char>>,
    i64,
    Seq<char>,
    Seq<char>,
    Seq<char>,
    Seq<char>,
    Seq<char>,
) {
    (
        r.room_id_str@,
        r.room_title@,
        crate::outside::opt_view(r.cover),
        r.status,
        r.hls_url@,
        r.stream_data@,
        r.user_name@,
        r.user_avatar@,
        r.sec_user_id@,
    )
}

fn is_absent(v: Option<&Json>) -> (r: bool)
    ensures
        r == absent(match v {
            Some(j) => Some(*j),
            None => None::<Json>,
        }),
{
    match v {
        None => true,
        Some(Json::Null) => true,
        _ => false,
    }
}

/// See `image_first_url`.
fn image_first_url_exec(v: Option<&Json>) -> (r: Option<Option<String>>)
    ensures
        match (r, image_first_url(match v {
            Some(j) => Some(*j),
            None => None::<Json>,
        })) {
            (None, None) => true,
            (Some(a), Some(b)) => crate::outside::opt_view(a) == b,
            _ => false,
        },
{
    let obj = match v {
        Some(o) => match o {
            Json::Object(_) => o,
            _ => return None,
        },
        None => return None,
    };
    let items = match obj.get("url_list") {
        Some(l) => match l {
            Json::Array(items) => items,
            _ => return None,
        },
        None => return None,
    };
    let ghost vv = match v {
        Some(j) => Some(*j),
        None => None::<Json>,
    };
    assert(vv == Some(*obj) && obj is Object);
    assert(obj.lookup("url_list"@) == Some(Json::Array(*items)));
    let mut i: usize = 0;
    while i < items.len()
        invariant
            i <= items.len(),
            vv == Some(*obj),
            *obj is Object,
            obj.lookup("url_list"@) == Some(Json::Array(*items)),
            vv == (match v {
                Some(j) => Some(*j),
                None => None::<Json>,
            }),
            forall|j: int| 0 <= j < i ==> #[trigger] items@[j] is Str,
        decreases items.len() - i,
    {
        match &items[i] {
            Json::Str(_) => {},
            _ => {
                assert(!(items@[i as int] is Str));
                return None;
            },
        }
        i += 1;
    }
    if items.len() == 0 {
        return Some(None);
    }
    match &items[0] {
        Json::Str(t) => Some(Some(t.clone())),
        _ => Some(None),
    }
}

/// The room of an H5 room answer (see `h5_basic_room`).
pub fn h5_basic_room_info(answer: &Json) -> (r: Option<DouyinBasicRoomInfo>)
    ensures
        match (r, h5_basic_room(*answer)) {
            (None, None) => true,
            (Some(info), Some(v)) => basic_room_view(info) == v,
            _ => false,
        },
{
    match answer {
        Json::Object(_) => {},
        _ => return None,
    }
    let data = match answer.get("data") {
        Some(d) => match d {
            Json::Object(_) => d,
            _ => return None,
        },
        None => return None,
    };
    let room = match data.get("room") {
        Some(d) => match d {
            Json::Object(_) => d,
            _ => return None,
        },
        None => return None,
    };
    let owner = match room.get("owner") {
        Some(d) => match d {
            Json::Object(_) => d,
            _ => return None,
        },
        None => return None,
    };
    let cover: Option<String> = if is_absent(room.get("cover")) {
        None
    } else {
        match image_first_url_exec(room.get("cover")) {
            Some(c) => c,
            None => return None,
        }
    };
    let stream: Option<(String, String)> = if is_absent(room.get("stream_url")) {
        None
    } else {
        let su = match room.get("stream_url") {
            Some(x) => x,
            None => return None,
        };
        match su {
            Json::Object(_) => {},
            _ => return None,
        }
        let hls = match su.get_str("hls_pull_url") {
            Some(h) => h,
            None => return None,
        };
        let core = match su.get("live_core_sdk_data") {
            Some(c) => match c {
                Json::Object(_) => c,
                _ => return None,
            },
            None => return None,
        };
        let pull = match core.get("pull_data") {
            Some(p) => match p {
                Json::Object(_) => p,
                _ => return None,
            },
            None => return None,
        };
        match pull.get_str("stream_data") {
            Some(d) => Some((hls, d)),
            None => return None,
        }
    };
    let id = match room.get_str("id_str") {
        Some(x) => x,
        None => return None,
    };
    let title = match room.get_str("title") {
        Some(x) => x,
        None => return None,
    };
    let status = match room.get_i64("status") {
        Some(x) => x,
        None => return None,
    };
    let nick = match owner.get_str("nickname") {
        Some(x) => x,
        None => return None,
    };
    let sec = match owner.get_str("sec_uid") {
        Some(x) => x,
        None => return None,
    };
    let avatar = match image_first_url_exec(owner.get("avatar_thumb")) {
        Some(a) => match a {
            Some(t) => t,
            None => String::new(),
        },
        None => return None,
    };
    let (hls_url, stream_data) = match stream {
        Some(p) => p,
        None => (String::new(), String::new()),
    };
    Some(
        DouyinBasicRoomInfo {
            room_id_str: id,
            room_title: title,
            cover,
            status: if status == 2 {
                0
            } else {
                1
            },
            hls_url,
            stream_data,
            user_name: nick,
            user_avatar: avatar,
            sec_user_id: sec,
        },
    )
}


/// The error reported for an H5 room answer text that is not JSON.
pub open spec fn h5_unparsed_message(text: Seq<char>) -> Seq<char> {
    "Failed to parse h5 room info response: "@ + text
}

fn h5_unparsed_error(text: &str) -> (r: RecorderError)
    ensures
        r matches RecorderError::ApiError { error } && error@ == h5_unparsed_message(text@),
{
    let mut v = chars_of("Failed to parse h5 room info response: ");
    append_str(&mut v, text);
    RecorderError::ApiError { error: string_of(&v) }
}

/// The error for an H5 room answer text that did not read as a room: the
/// parse failure, else what the parsed answer reports (see `h5_room_error`).
pub fn h5_answer_error(text: &str) -> (r: RecorderError)
    ensures
        r matches RecorderError::ApiError { error } && error@ == match crate::outside::json_parsed(text@) {
            Err(_) => h5_unparsed_message(text@),
            Ok(v) => h5_error_message(v, text@),
        },
{
    match crate::outside::parse_json(text) {
        Ok(v) => h5_room_error(&v, text),
        Err(_) => h5_unparsed_error(text),
    }
}

/// The room of an H5 room answer text with a success status (see
/// `h5_basic_room`), or the error it reports (see `h5_answer_error`).
pub fn h5_room_answer(text: &str) -> (r: Result<DouyinBasicRoomInfo, RecorderError>)
    ensures
        match crate::outside::json_parsed(text@) {
            Err(_) => r matches Err(RecorderError::ApiError { error }) && error@ == h5_unparsed_message(text@),
            Ok(v) => match h5_basic_room(v) {
                Some(b) => r matches Ok(info) && basic_room_view(info) == b,
                None => r matches Err(RecorderError::ApiError { error }) && error@ == h5_error_message(v, text@),
            },
        },
{
    match crate::outside::parse_json(text) {
        Ok(v) => match h5_basic_room_info(&v) {
            Some(room) => Ok(room),
            None => Err(h5_room_error(&v, text)),
        },
        Err(_) => Err(h5_unparsed_error(text)),
    }
}

} // verus!
