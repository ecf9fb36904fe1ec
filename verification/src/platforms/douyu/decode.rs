//! Douyu: reading API answers leniently. Douyu writes the same field as a
//! string, a number or a boolean from one answer to the next; the readers
//! here accept each form that carries the value and refuse the rest.
use vstd::prelude::*;

use crate::json::{json_text, to_json_text, Json};
use crate::outside::{json_parsed, opt_view, parse_json};
use crate::platforms::douyu::response::{
    DouyuCdn, DouyuEncryptionData, DouyuEncryptionResponse, DouyuH5PlayData, DouyuH5PlayResponse,
    DouyuRoomInfo, DouyuRoomInfoResponse, MAX_ENCRYPTION_ITERATIONS,
};
use crate::text::{chars_of, eq_str, lower, parse_u64, parse_u64_exec, string_of, to_lower, trim, trim_str};
use vstd::string::StringExecFns;

verus! {

/// A text field: absent or null reads as empty; a string as it is; a
/// number or a boolean as written; anything else is refused.
pub open spec fn lenient_string(v: Option<Json>) -> Option<Seq<char>> {
    match v {
        None => Some(Seq::empty()),
        Some(Json::Null) => Some(Seq::empty()),
        Some(Json::Str(s)) => Some(s@),
        Some(Json::Bool(b)) => Some(
            if b {
                "true"@
            } else {
                "false"@
            },
        ),
        Some(Json::Array(_)) => None,
        Some(Json::Object(_)) => None,
        Some(n) => n.number_text(),
    }
}

/// An unsigned field: absent or null reads as 0; a non-negative integer as
/// it is; a string holding one (around white space) as that number;
/// anything else is refused.
pub open spec fn lenient_u64(v: Option<Json>) -> Option<u64> {
    match v {
        None => Some(0),
        Some(Json::Null) => Some(0),
        Some(Json::PosInt(n)) => Some(n),
        Some(Json::Str(s)) => parse_u64(trim(s@)),
        _ => None,
    }
}

/// The key-hashing round count: an unsigned field no greater than
/// `MAX_ENCRYPTION_ITERATIONS`.
pub open spec fn lenient_rounds(v: Option<Json>) -> Option<u32> {
    match lenient_u64(v) {
        Some(n) => if n <= MAX_ENCRYPTION_ITERATIONS {
            Some(n as u32)
        } else {
            None
        },
        None => None,
    }
}

/// A boolean field: absent or null reads as false; a boolean as it is; a
/// number is true unless it is 0 (or does not fit a signed 64-bit integer);
/// a string, trimmed and in lower case, is true for `1`, `true`, `yes` and
/// false for `0`, `false`, `no` or nothing; anything else is refused.
pub open spec fn lenient_bool(v: Option<Json>) -> Option<bool> {
    match v {
        None => Some(false),
        Some(Json::Null) => Some(false),
        Some(Json::Bool(b)) => Some(b),
        Some(Json::PosInt(n)) => Some(n <= i64::MAX as u64 && n != 0),
        Some(Json::NegInt(n)) => Some(n != 0),
        Some(Json::Float(_)) => Some(false),
        Some(Json::Str(s)) => {
            let t = lower(trim(s@));
            if t == "1"@ || t == "true"@ || t == "yes"@ {
                Some(true)
            } else if t == "0"@ || t == "false"@ || t == "no"@ || t.len() == 0 {
                Some(false)
            } else {
                None
            }
        },
        _ => None,
    }
}

/// An optional text field: absent, null or empty reads as nothing; a
/// string as it is; any other value as its JSON text.
pub open spec fn lenient_optional_string(v: Option<Json>) -> Option<Seq<char>> {
    match v {
        None => None,
        Some(Json::Null) => None,
        Some(Json::Str(s)) => if s@.len() == 0 {
            None
        } else {
            Some(s@)
        },
        Some(x) => Some(json_text(x)),
    }
}

/// An answer's error code: absent reads as 0; an integer that fits 32 bits
/// as it is; anything else is refused.
pub open spec fn error_code(v: Option<Json>) -> Option<i32> {
    match v {
        None => Some(0),
        Some(Json::PosInt(n)) => if n <= i32::MAX as u64 {
            Some(n as i32)
        } else {
            None
        },
        Some(Json::NegInt(n)) => if n >= i32::MIN as i64 {
            Some(n as i32)
        } else {
            None
        },
        _ => None,
    }
}

/// An answer's message: absent reads as empty; a string as it is; anything
/// else is refused.
pub open spec fn message(v: Option<Json>) -> Option<Seq<char>> {
    match v {
        None => Some(Seq::empty()),
        Some(Json::Str(s)) => Some(s@),
        _ => None,
    }
}

/// Whether an answer's `data` holds nothing: it is absent, null or the empty
/// string.
pub open spec fn no_data(v: Option<Json>) -> bool {
    match v {
        None => true,
        Some(Json::Null) => true,
        Some(Json::Str(s)) => s@.len() == 0,
        _ => false,
    }
}

fn read_string(v: &Json, key: &str) -> (r: Result<String, String>)
    ensures
        match lenient_string(v.lookup(key@)) {
            Some(t) => r matches Ok(s) && s@ == t,
            None => r is Err,
        },
{
    match v.get(key) {
        None => Ok(String::new()),
        Some(x) => match x {
            Json::Null => Ok(String::new()),
            Json::Str(s) => Ok(s.clone()),
            Json::Bool(b) => Ok(String::from_str(if *b { "true" } else { "false" })),
            Json::Array(_) => Err(field_error(key, "expected scalar")),
            Json::Object(_) => Err(field_error(key, "expected scalar")),
            _ => match x.number_to_string() {
                Some(t) => Ok(t),
                None => Err(field_error(key, "expected scalar")),
            },
        },
    }
}

fn field_error(key: &str, what: &str) -> (r: String)
    ensures
        r@ == what@ + " for field "@ + key@,
{
    let mut v = chars_of(what);
    crate::text::append_str(&mut v, " for field ");
    crate::text::append_str(&mut v, key);
    string_of(&v)
}

fn read_u64(v: &Json, key: &str) -> (r: Result<u64, String>)
    ensures
        match lenient_u64(v.lookup(key@)) {
            Some(n) => r == Ok::<u64, String>(n),
            None => r is Err,
        },
{
    match v.get(key) {
        None => Ok(0),
        Some(x) => match x {
            Json::Null => Ok(0),
            Json::PosInt(n) => Ok(*n),
            Json::Str(s) => match parse_u64_exec(&trim_str(s.as_str())) {
                Some(n) => Ok(n),
                None => Err(field_error(key, "expected an unsigned integer string")),
            },
            _ => Err(field_error(key, "expected an unsigned integer")),
        },
    }
}

fn read_rounds(v: &Json, key: &str) -> (r: Result<u32, String>)
    ensures
        match lenient_rounds(v.lookup(key@)) {
            Some(n) => r == Ok::<u32, String>(n),
            None => r is Err,
        },
{
    let n = read_u64(v, key)?;
    if n > MAX_ENCRYPTION_ITERATIONS as u64 {
        return Err(field_error(key, "enc_time exceeds maximum 16"));
    }
    Ok(n as u32)
}

fn read_bool(v: &Json, key: &str) -> (r: Result<bool, String>)
    ensures
        match lenient_bool(v.lookup(key@)) {
            Some(b) => r == Ok::<bool, String>(b),
            None => r is Err,
        },
{
    match v.get(key) {
        None => Ok(false),
        Some(x) => match x {
            Json::Null => Ok(false),
            Json::Bool(b) => Ok(*b),
            Json::PosInt(n) => Ok(*n <= i64::MAX as u64 && *n != 0),
            Json::NegInt(n) => Ok(*n != 0),
            Json::Float(_) => Ok(false),
            Json::Str(s) => {
                let t = to_lower(&trim_str(s.as_str()));
                if eq_str(&t, "1") || eq_str(&t, "true") || eq_str(&t, "yes") {
                    Ok(true)
                } else if eq_str(&t, "0") || eq_str(&t, "false") || eq_str(&t, "no") || t.len() == 0 {
                    Ok(false)
                } else {
                    Err(field_error(key, "expected a boolean or 0/1 string"))
                }
            },
            _ => Err(field_error(key, "expected boolean")),
        },
    }
}

fn read_optional_string(v: &Json, key: &str) -> (r: Option<String>)
    ensures
        opt_view(r) == lenient_optional_string(v.lookup(key@)),
{
    match v.get(key) {
        None => None,
        Some(x) => match x {
            Json::Null => None,
            Json::Str(s) => if chars_of(s.as_str()).len() == 0 {
                None
            } else {
                Some(s.clone())
            },
            _ => Some(to_json_text(x)),
        },
    }
}

fn read_code(v: &Json) -> (r: Result<i32, String>)
    ensures
        match error_code(v.lookup("error"@)) {
            Some(n) => r == Ok::<i32, String>(n),
            None => r is Err,
        },
{
    match v.get("error") {
        None => Ok(0),
        Some(x) => match x {
            Json::PosInt(n) => if *n <= i32::MAX as u64 {
                Ok(*n as i32)
            } else {
                Err(field_error("error", "integer out of range"))
            },
            Json::NegInt(n) => if *n >= i32::MIN as i64 {
                Ok(*n as i32)
            } else {
                Err(field_error("error", "integer out of range"))
            },
            _ => Err(field_error("error", "expected i32")),
        },
    }
}

fn read_message(v: &Json) -> (r: Result<String, String>)
    ensures
        match message(v.lookup("msg"@)) {
            Some(t) => r matches Ok(s) && s@ == t,
            None => r is Err,
        },
{
    match v.get("msg") {
        None => Ok(String::new()),
        Some(x) => match x {
            Json::Str(s) => Ok(s.clone()),
            _ => Err(field_error("msg", "expected a string")),
        },
    }
}

fn read_no_data(v: &Json) -> (r: bool)
    ensures
        r == no_data(v.lookup("data"@)),
{
    match v.get("data") {
        None => true,
        Some(x) => match x {
            Json::Null => true,
            Json::Str(s) => chars_of(s.as_str()).len() == 0,
            _ => false,
        },
    }
}

// ---------------------------------------------------------------------------
// Room answers
// ---------------------------------------------------------------------------

/// Whether an object reads as a room: every field reads.
pub open spec fn room_reads(v: Json) -> bool {
    &&& v is Object
    &&& lenient_string(v.lookup("room_id"@)) is Some
    &&& lenient_string(v.lookup("room_thumb"@)) is Some
    &&& lenient_string(v.lookup("room_name"@)) is Some
    &&& lenient_string(v.lookup("room_status"@)) is Some
    &&& lenient_string(v.lookup("start_time"@)) is Some
    &&& lenient_string(v.lookup("owner_name"@)) is Some
    &&& lenient_string(v.lookup("owner_uid"@)) is Some
    &&& lenient_string(v.lookup("avatar"@)) is Some
    &&& lenient_u64(v.lookup("online"@)) is Some
}

/// The room an object reads as (see `room_reads`).
pub open spec fn room_read_as(v: Json, r: DouyuRoomInfo) -> bool {
    &&& r.room_id@ == lenient_string(v.lookup("room_id"@))->0
    &&& r.room_thumb@ == lenient_string(v.lookup("room_thumb"@))->0
    &&& r.room_name@ == lenient_string(v.lookup("room_name"@))->0
    &&& r.room_status@ == lenient_string(v.lookup("room_status"@))->0
    &&& r.start_time@ == lenient_string(v.lookup("start_time"@))->0
    &&& r.owner_name@ == lenient_string(v.lookup("owner_name"@))->0
    &&& r.owner_uid@ == lenient_string(v.lookup("owner_uid"@))->0
    &&& r.avatar@ == lenient_string(v.lookup("avatar"@))->0
    &&& r.online == lenient_u64(v.lookup("online"@))->0
}

fn read_room(v: &Json) -> (r: Result<DouyuRoomInfo, String>)
    ensures
        r is Ok <==> room_reads(*v),
        r matches Ok(room) ==> room_read_as(*v, room),
{
    if !matches!(v, Json::Object(_)) {
        return Err(String::from_str("expected a room object"));
    }
    Ok(
        DouyuRoomInfo {
            room_id: read_string(v, "room_id")?,
            room_thumb: read_string(v, "room_thumb")?,
            room_name: read_string(v, "room_name")?,
            room_status: read_string(v, "room_status")?,
            start_time: read_string(v, "start_time")?,
            owner_name: read_string(v, "owner_name")?,
            owner_uid: read_string(v, "owner_uid")?,
            avatar: read_string(v, "avatar")?,
            online: read_u64(v, "online")?,
        },
    )
}

/// A RoomApi answer, read leniently: it must be an object whose `error`,
/// `msg` and (unless it holds nothing) `data` read; the error text is not
/// specified.
pub open spec fn room_response_outcome(v: Json, r: Result<DouyuRoomInfoResponse, String>) -> bool {
    &&& r is Ok <==> (v is Object && error_code(v.lookup("error"@)) is Some && message(v.lookup("msg"@)) is Some
        && (no_data(v.lookup("data"@)) || room_reads(v.lookup("data"@)->0)))
    &&& r matches Ok(resp) ==> resp.error == error_code(v.lookup("error"@))->0 && resp.msg@ == message(
        v.lookup("msg"@),
    )->0 && (no_data(v.lookup("data"@)) ==> resp.data is None) && (!no_data(v.lookup("data"@)) ==> (
    resp.data matches Some(room) && room_read_as(v.lookup("data"@)->0, room)))
}

/// The parsed answer read leniently (see `room_response_outcome`).
pub fn read_room_response(v: &Json) -> (r: Result<DouyuRoomInfoResponse, String>)
    ensures
        room_response_outcome(*v, r),
{
    if !matches!(v, Json::Object(_)) {
        return Err(String::from_str("expected an answer object"));
    }
    let error = read_code(v)?;
    let msg = read_message(v)?;
    let data = if read_no_data(v) {
        None
    } else {
        match v.get("data") {
            Some(d) => Some(read_room(d)?),
            None => None,
        }
    };
    Ok(DouyuRoomInfoResponse { error, msg, data })
}

// ---------------------------------------------------------------------------
// Play answers
// ---------------------------------------------------------------------------

/// Whether a value reads as a list of CDNs: an array of objects whose `cdn`
/// reads; absent, it reads as none.
pub open spec fn cdns_read(v: Option<Json>) -> bool {
    match v {
        None => true,
        Some(Json::Array(items)) => forall|i: int|
            0 <= i < items@.len() ==> (#[trigger] items@[i]) is Object && lenient_string(
                items@[i].lookup("cdn"@),
            ) is Some,
        _ => false,
    }
}

/// The CDN names a list reads as.
pub open spec fn cdn_names(v: Option<Json>) -> Seq<Seq<char>> {
    match v {
        Some(Json::Array(items)) => items@.map_values(|x: Json| lenient_string(x.lookup("cdn"@))->0),
        _ => Seq::empty(),
    }
}

pub open spec fn cdns_view(cs: Seq<DouyuCdn>) -> Seq<Seq<char>> {
    cs.map_values(|c: DouyuCdn| c.cdn@)
}

/// Whether an object reads as play data: every field reads.
pub open spec fn play_reads(v: Json) -> bool {
    &&& v is Object
    &&& lenient_u64(v.lookup("room_id"@)) is Some
    &&& lenient_string(v.lookup("rtmp_url"@)) is Some
    &&& lenient_string(v.lookup("rtmp_live"@)) is Some
    &&& cdns_read(v.lookup("cdnsWithName"@))
}

/// The play data an object reads as (see `play_reads`).
pub open spec fn play_read_as(v: Json, d: DouyuH5PlayData) -> bool {
    &&& d.room_id == lenient_u64(v.lookup("room_id"@))->0
    &&& d.rtmp_url@ == lenient_string(v.lookup("rtmp_url"@))->0
    &&& d.rtmp_live@ == lenient_string(v.lookup("rtmp_live"@))->0
    &&& opt_view(d.player_1) == lenient_optional_string(v.lookup("player_1"@))
    &&& cdns_view(d.cdns@) == cdn_names(v.lookup("cdnsWithName"@))
}

fn read_cdns(v: &Json) -> (r: Result<Vec<DouyuCdn>, String>)
    ensures
        r is Ok <==> cdns_read(v.lookup("cdnsWithName"@)),
        r matches Ok(cs) ==> cdns_view(cs@) == cdn_names(v.lookup("cdnsWithName"@)),
{
    match v.get("cdnsWithName") {
        None => Ok(Vec::new()),
        Some(x) => match x {
            Json::Array(items) => {
                let mut out: Vec<DouyuCdn> = Vec::new();
                let mut i: usize = 0;
                while i < items.len()
                    invariant
                        i <= items.len(),
                        v.lookup("cdnsWithName"@) == Some(Json::Array(*items)),
                        forall|k: int|
                            0 <= k < i ==> (#[trigger] items@[k]) is Object && lenient_string(
                                items@[k].lookup("cdn"@),
                            ) is Some,
                        cdns_view(out@) == items@.take(i as int).map_values(
                            |x: Json| lenient_string(x.lookup("cdn"@))->0,
                        ),
                    decreases items.len() - i,
                {
                    let item = &items[i];
                    if !matches!(item, Json::Object(_)) {
                        return Err(String::from_str("expected a CDN object"));
                    }
                    let cdn = match read_string(item, "cdn") {
                        Ok(c) => c,
                        Err(e) => {
                            return Err(e);
                        },
                    };
                    let ghost before = cdns_view(out@);
                    out.push(DouyuCdn { cdn });
                    assert(cdns_view(out@) =~= before.push(lenient_string(items@[i as int].lookup("cdn"@))->0));
                    assert(items@.take(i + 1).map_values(|x: Json| lenient_string(x.lookup("cdn"@))->0)
                        =~= items@.take(i as int).map_values(|x: Json| lenient_string(x.lookup("cdn"@))->0).push(
                        lenient_string(items@[i as int].lookup("cdn"@))->0,
                    ));
                    i += 1;
                }
                assert(items@.take(items.len() as int) =~= items@);
                Ok(out)
            },
            _ => Err(String::from_str("expected a list of CDNs")),
        },
    }
}

fn read_play(v: &Json) -> (r: Result<DouyuH5PlayData, String>)
    ensures
        r is Ok <==> play_reads(*v),
        r matches Ok(d) ==> play_read_as(*v, d),
{
    if !matches!(v, Json::Object(_)) {
        return Err(String::from_str("expected a play data object"));
    }
    let room_id = read_u64(v, "room_id")?;
    let rtmp_url = read_string(v, "rtmp_url")?;
    let rtmp_live = read_string(v, "rtmp_live")?;
    let player_1 = read_optional_string(v, "player_1");
    let cdns = read_cdns(v)?;
    Ok(DouyuH5PlayData { room_id, rtmp_url, rtmp_live, player_1, cdns })
}

/// A getH5PlayV1 answer, read leniently (see `room_response_outcome`).
pub open spec fn play_response_outcome(v: Json, r: Result<DouyuH5PlayResponse, String>) -> bool {
    &&& r is Ok <==> (v is Object && error_code(v.lookup("error"@)) is Some && message(v.lookup("msg"@)) is Some
        && (no_data(v.lookup("data"@)) || play_reads(v.lookup("data"@)->0)))
    &&& r matches Ok(resp) ==> resp.error == error_code(v.lookup("error"@))->0 && resp.msg@ == message(
        v.lookup("msg"@),
    )->0 && (no_data(v.lookup("data"@)) ==> resp.data is None) && (!no_data(v.lookup("data"@)) ==> (
    resp.data matches Some(d) && play_read_as(v.lookup("data"@)->0, d)))
}

/// The parsed answer read leniently (see `play_response_outcome`).
pub fn read_play_response(v: &Json) -> (r: Result<DouyuH5PlayResponse, String>)
    ensures
        play_response_outcome(*v, r),
{
    if !matches!(v, Json::Object(_)) {
        return Err(String::from_str("expected an answer object"));
    }
    let error = read_code(v)?;
    let msg = read_message(v)?;
    let data = if read_no_data(v) {
        None
    } else {
        match v.get("data") {
            Some(d) => Some(read_play(d)?),
            None => None,
        }
    };
    Ok(DouyuH5PlayResponse { error, msg, data })
}

// ---------------------------------------------------------------------------
// Encryption answers
// ---------------------------------------------------------------------------

/// Whether an object reads as key material: every field reads, the round
/// count within its bound.
pub open spec fn key_reads(v: Json) -> bool {
    &&& v is Object
    &&& lenient_string(v.lookup("rand_str"@)) is Some
    &&& lenient_rounds(v.lookup("enc_time"@)) is Some
    &&& lenient_u64(v.lookup("expire_at"@)) is Some
    &&& lenient_string(v.lookup("key"@)) is Some
    &&& lenient_bool(v.lookup("is_special"@)) is Some
    &&& lenient_string(v.lookup("enc_data"@)) is Some
}

/// The key material an object reads as (see `key_reads`).
pub open spec fn key_read_as(v: Json, d: DouyuEncryptionData) -> bool {
    &&& d.rand_str@ == lenient_string(v.lookup("rand_str"@))->0
    &&& d.enc_time == lenient_rounds(v.lookup("enc_time"@))->0
    &&& d.expire_at == lenient_u64(v.lookup("expire_at"@))->0
    &&& d.key@ == lenient_string(v.lookup("key"@))->0
    &&& d.is_special == lenient_bool(v.lookup("is_special"@))->0
    &&& d.enc_data@ == lenient_string(v.lookup("enc_data"@))->0
}

fn read_key(v: &Json) -> (r: Result<DouyuEncryptionData, String>)
    ensures
        r is Ok <==> key_reads(*v),
        r matches Ok(d) ==> key_read_as(*v, d),
{
    if !matches!(v, Json::Object(_)) {
        return Err(String::from_str("expected a key object"));
    }
    Ok(
        DouyuEncryptionData {
            rand_str: read_string(v, "rand_str")?,
            enc_time: read_rounds(v, "enc_time")?,
            expire_at: read_u64(v, "expire_at")?,
            key: read_string(v, "key")?,
            is_special: read_bool(v, "is_special")?,
            enc_data: read_string(v, "enc_data")?,
        },
    )
}

/// A getEncryption answer, read leniently (see `room_response_outcome`).
pub open spec fn encryption_response_outcome(v: Json, r: Result<DouyuEncryptionResponse, String>) -> bool {
    &&& r is Ok <==> (v is Object && error_code(v.lookup("error"@)) is Some && message(v.lookup("msg"@)) is Some
        && (no_data(v.lookup("data"@)) || key_reads(v.lookup("data"@)->0)))
    &&& r matches Ok(resp) ==> resp.error == error_code(v.lookup("error"@))->0 && resp.msg@ == message(
        v.lookup("msg"@),
    )->0 && (no_data(v.lookup("data"@)) ==> resp.data is None) && (!no_data(v.lookup("data"@)) ==> (
    resp.data matches Some(d) && key_read_as(v.lookup("data"@)->0, d)))
}

/// The parsed answer read leniently (see `encryption_response_outcome`).
pub fn read_encryption_response(v: &Json) -> (r: Result<DouyuEncryptionResponse, String>)
    ensures
        encryption_response_outcome(*v, r),
{
    if !matches!(v, Json::Object(_)) {
        return Err(String::from_str("expected an answer object"));
    }
    let error = read_code(v)?;
    let msg = read_message(v)?;
    let data = if read_no_data(v) {
        None
    } else {
        match v.get("data") {
            Some(d) => Some(read_key(d)?),
            None => None,
        }
    };
    Ok(DouyuEncryptionResponse { error, msg, data })
}


/// A RoomApi answer body: parsed as JSON (the parse error's text when it is not), then
/// read leniently (see `read_room_response`).
pub fn parse_room_response(body: &str) -> (r: Result<DouyuRoomInfoResponse, String>)
    ensures
        match json_parsed(body@) {
            Err(e) => r matches Err(t) && t@ == e,
            Ok(v) => room_response_outcome(v, r),
        },
{
    match parse_json(body) {
        Ok(v) => read_room_response(&v),
        Err(e) => Err(e),
    }
}

/// A getH5PlayV1 answer body: parsed as JSON (the parse error's text when it is not), then
/// read leniently (see `read_play_response`).
pub fn parse_play_response(body: &str) -> (r: Result<DouyuH5PlayResponse, String>)
    ensures
        match json_parsed(body@) {
            Err(e) => r matches Err(t) && t@ == e,
            Ok(v) => play_response_outcome(v, r),
        },
{
    match parse_json(body) {
        Ok(v) => read_play_response(&v),
        Err(e) => Err(e),
    }
}

/// A getEncryption answer body: parsed as JSON (the parse error's text when it is not), then
/// read leniently (see `read_encryption_response`).
pub fn parse_encryption_response(body: &str) -> (r: Result<DouyuEncryptionResponse, String>)
    ensures
        match json_parsed(body@) {
            Err(e) => r matches Err(t) && t@ == e,
            Ok(v) => encryption_response_outcome(v, r),
        },
{
    match parse_json(body) {
        Ok(v) => read_encryption_response(&v),
        Err(e) => Err(e),
    }
}

} // verus!
