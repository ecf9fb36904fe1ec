//! Bilibili: what the room, user and QR login APIs answer.
use vstd::prelude::*;

use crate::errors::RecorderError;
use crate::json::{at, i64_member, str_member, u64_member, Json};
use crate::outside::{parse_utc_seconds, utc_seconds};
use crate::platforms::bilibili::api::{QrInfo, QrStatus, RoomInfo, UserInfo};
use crate::text::{
    after_last_char, after_last_char_exec, chars_of, eq_str, push_signed_decimal, replace, replace_exec,
    signed_decimal, string_of,
};
use vstd::string::StringExecFns;

verus! {

/// The answer's `code`, when it is an unsigned integer that is zero.
pub open spec fn answer_ok(res: Json) -> bool {
    u64_member(res, "code"@) == Some(0u64)
}

/// `value["data"][key]`: a member of the answer's data, if any.
pub open spec fn data_member(res: Json, key: Seq<char>) -> Option<Json> {
    at(res.lookup("data"@), key)
}

pub open spec fn data_str(res: Json, key: Seq<char>) -> Option<Seq<char>> {
    match data_member(res, key) {
        Some(v) => v.str_value(),
        None => None,
    }
}

pub open spec fn data_i64(res: Json, key: Seq<char>) -> Option<i64> {
    match data_member(res, key) {
        Some(v) => v.i64_value(),
        None => None,
    }
}

pub open spec fn data_u64(res: Json, key: Seq<char>) -> Option<u64> {
    match data_member(res, key) {
        Some(v) => v.u64_value(),
        None => None,
    }
}

/// The text a room's live time gives for its start (Unix seconds): 0 for
/// the zero time, else the time read as Beijing time (UTC+8).
pub open spec fn live_start(text: Seq<char>) -> Option<i64> {
    if text == "0000-00-00 00:00:00"@ {
        Some(0)
    } else {
        match utc_seconds(text, "%Y-%m-%d %H:%M:%S"@) {
            Some(t) => Some((t - 8 * 3600) as i64),
            None => None,
        }
    }
}

/// Whether the room fields the room API must give are all there.
pub open spec fn room_fields(res: Json) -> bool {
    &&& data_i64(res, "room_id"@) is Some
    &&& data_str(res, "title"@) is Some
    &&& data_str(res, "user_cover"@) is Some
    &&& data_str(res, "keyframe"@) is Some
    &&& data_i64(res, "uid"@) is Some
    &&& data_u64(res, "live_status"@) is Some
    &&& data_str(res, "live_time"@) is Some
    &&& live_start(data_str(res, "live_time"@)->0) is Some
}

fn data_member_exec<'a>(res: &'a Json, key: &str) -> (r: Option<&'a Json>)
    ensures
        r is Some <==> data_member(*res, key@) is Some,
        r matches Some(v) ==> data_member(*res, key@) == Some(*v),
{
    crate::json::get_at(res.get("data"), key)
}

fn data_str_exec(res: &Json, key: &str) -> (r: Option<String>)
    ensures
        crate::outside::opt_view(r) == data_str(*res, key@),
{
    match data_member_exec(res, key) {
        Some(v) => match v.as_str() {
            Some(s) => Some(s.clone()),
            None => None,
        },
        None => None,
    }
}

fn data_i64_exec(res: &Json, key: &str) -> (r: Option<i64>)
    ensures
        r == data_i64(*res, key@),
{
    match data_member_exec(res, key) {
        Some(v) => v.as_i64(),
        None => None,
    }
}

fn data_u64_exec(res: &Json, key: &str) -> (r: Option<u64>)
    ensures
        r == data_u64(*res, key@),
{
    match data_member_exec(res, key) {
        Some(v) => v.as_u64(),
        None => None,
    }
}

fn decimal_string(n: i64) -> (r: String)
    ensures
        r@ == signed_decimal(n as int),
{
    let mut v: Vec<char> = Vec::new();
    push_signed_decimal(&mut v, n);
    assert(v@ =~= signed_decimal(n as int));
    string_of(&v)
}

/// The room the room API answered: an answer whose `code` is not zero is
/// refused whole; one that lacks a room field (or whose live time does not
/// read) is an invalid value. The live status is the low byte of
/// `live_status`.
pub fn room_info_from_answer(res: Json) -> (r: Result<RoomInfo, RecorderError>)
    ensures
        !answer_ok(res) ==> (r matches Err(RecorderError::InvalidResponseJson { resp }) && resp == res),
        answer_ok(res) && !room_fields(res) ==> (r matches Err(RecorderError::InvalidValue)),
        answer_ok(res) && room_fields(res) ==> (r matches Ok(info) && {
            &&& info.room_id@ == signed_decimal(data_i64(res, "room_id"@)->0 as int)
            &&& info.room_title@ == data_str(res, "title"@)->0
            &&& info.room_cover_url@ == data_str(res, "user_cover"@)->0
            &&& info.room_keyframe_url@ == data_str(res, "keyframe"@)->0
            &&& info.user_id@ == signed_decimal(data_i64(res, "uid"@)->0 as int)
            &&& info.live_status as int == data_u64(res, "live_status"@)->0 % 256
            &&& info.live_start_time == live_start(data_str(res, "live_time"@)->0)->0
        }),
{
    match res.get_u64("code") {
        Some(0) => {},
        _ => {
            return Err(RecorderError::InvalidResponseJson { resp: res });
        },
    }
    let room_id = match data_i64_exec(&res, "room_id") {
        Some(n) => decimal_string(n),
        None => {
            return Err(RecorderError::InvalidValue);
        },
    };
    let room_title = match data_str_exec(&res, "title") {
        Some(t) => t,
        None => {
            return Err(RecorderError::InvalidValue);
        },
    };
    let room_cover_url = match data_str_exec(&res, "user_cover") {
        Some(t) => t,
        None => {
            return Err(RecorderError::InvalidValue);
        },
    };
    let room_keyframe_url = match data_str_exec(&res, "keyframe") {
        Some(t) => t,
        None => {
            return Err(RecorderError::InvalidValue);
        },
    };
    let user_id = match data_i64_exec(&res, "uid") {
        Some(n) => decimal_string(n),
        None => {
            return Err(RecorderError::InvalidValue);
        },
    };
    let live_status: u8 = match data_u64_exec(&res, "live_status") {
        Some(n) => (n % 256) as u8,
        None => {
            return Err(RecorderError::InvalidValue);
        },
    };
    let live_time = match data_str_exec(&res, "live_time") {
        Some(t) => t,
        None => {
            return Err(RecorderError::InvalidValue);
        },
    };
    let live_start_time = if eq_str(&chars_of(live_time.as_str()), "0000-00-00 00:00:00") {
        0
    } else {
        match parse_utc_seconds(live_time.as_str(), "%Y-%m-%d %H:%M:%S") {
            Some(t) => t - 8 * 3600,
            None => {
                return Err(RecorderError::InvalidValue);
            },
        }
    };
    Ok(
        RoomInfo {
            live_status,
            room_cover_url,
            room_id,
            room_keyframe_url,
            room_title,
            user_id,
            live_start_time,
        },
    )
}

/// A data member's text, or the empty text.
pub open spec fn data_text(res: Json, key: Seq<char>) -> Seq<char> {
    match data_str(res, key) {
        Some(t) => t,
        None => Seq::empty(),
    }
}

/// The user the space API answered for `user_id`: an answer whose `code`
/// is not zero is refused whole; a missing name, sign or face reads as
/// empty.
pub fn user_info_from_answer(user_id: &str, res: Json) -> (r: Result<UserInfo, RecorderError>)
    ensures
        !answer_ok(res) ==> (r matches Err(RecorderError::InvalidResponseJson { resp }) && resp == res),
        answer_ok(res) ==> (r matches Ok(u) && {
            &&& u.user_id@ == user_id@
            &&& u.user_name@ == data_text(res, "name"@)
            &&& u.user_sign@ == data_text(res, "sign"@)
            &&& u.user_avatar_url@ == data_text(res, "face"@)
        }),
{
    match res.get_u64("code") {
        Some(0) => {},
        _ => {
            return Err(RecorderError::InvalidResponseJson { resp: res });
        },
    }
    Ok(
        UserInfo {
            user_id: String::from_str(user_id),
            user_name: data_text_exec(&res, "name"),
            user_sign: data_text_exec(&res, "sign"),
            user_avatar_url: data_text_exec(&res, "face"),
        },
    )
}

fn data_text_exec(res: &Json, key: &str) -> (t: String)
    ensures
        t@ == data_text(*res, key@),
{
    match data_str_exec(res, key) {
        Some(t) => t,
        None => String::new(),
    }
}

/// The QR code the login API generated: its key and URL, both of which it
/// must give.
pub fn qr_from_answer(res: &Json) -> (r: Result<QrInfo, RecorderError>)
    ensures
        (data_str(*res, "qrcode_key"@) is Some && data_str(*res, "url"@) is Some) ==> (r matches Ok(q) && q.oauth_key@
            == data_str(*res, "qrcode_key"@)->0 && q.url@ == data_str(*res, "url"@)->0),
        !(data_str(*res, "qrcode_key"@) is Some && data_str(*res, "url"@) is Some) ==> (r matches Err(
            RecorderError::InvalidValue,
        )),
{
    let oauth_key = match data_str_exec(res, "qrcode_key") {
        Some(t) => t,
        None => {
            return Err(RecorderError::InvalidValue);
        },
    };
    let url = match data_str_exec(res, "url") {
        Some(t) => t,
        None => {
            return Err(RecorderError::InvalidValue);
        },
    };
    Ok(QrInfo { oauth_key, url })
}

/// The poll code of a QR login answer: the low byte of `data.code`, or of
/// 400 when there is none.
pub open spec fn qr_code(res: Json) -> u8 {
    match data_u64(res, "code"@) {
        Some(c) => (c % 256) as u8,
        None => 144u8,
    }
}

/// The cookies a confirmed login's URL carries: its query (the text after
/// its last `?`) with `&` turned into `;`.
pub open spec fn login_cookies(url: Seq<char>) -> Seq<char> {
    replace(after_last_char(url, '?'), "&"@, ";"@)
}

/// The state a QR login poll answered: its code, and once confirmed (code
/// 0) the cookies of the URL it gives, which it must then give.
pub fn qr_status_from_answer(res: &Json) -> (r: Result<QrStatus, RecorderError>)
    ensures
        qr_code(*res) != 0 ==> (r matches Ok(s) && s.code == qr_code(*res) && s.cookies@ == Seq::<char>::empty()),
        qr_code(*res) == 0 && data_str(*res, "url"@) is Some ==> (r matches Ok(s) && s.code == 0
            && s.cookies@ == login_cookies(data_str(*res, "url"@)->0)),
        qr_code(*res) == 0 && data_str(*res, "url"@) is None ==> (r matches Err(RecorderError::InvalidValue)),
{
    let code: u8 = match data_u64_exec(res, "code") {
        Some(c) => (c % 256) as u8,
        None => 144,
    };
    let mut cookies = String::new();
    if code == 0 {
        let url = match data_str_exec(res, "url") {
            Some(t) => t,
            None => {
                return Err(RecorderError::InvalidValue);
            },
        };
        let query = after_last_char_exec(&chars_of(url.as_str()), '?');
        cookies = string_of(&replace_exec(&query, &chars_of("&"), &chars_of(";")));
    }
    Ok(QrStatus { code, cookies })
}

} // verus!
