//! Douyu API responses and what they mean.
use vstd::prelude::*;

use crate::text::{
    append_str, ascii_alnum, chars_of, contains, contains_str, eq_str, is_ascii_alnum, lower,
    push_decimal, decimal, starts_with, starts_with_str, string_of, to_lower, trim, trim_char,
    trim_char_exec, trim_end_char, trim_end_char_exec, trim_exec, trim_start_char,
    trim_start_char_exec, trim_str,
};

verus! {

/// The largest key-hashing round count that a key may ask for.
pub const MAX_ENCRYPTION_ITERATIONS: u32 = 16;

/// The response returned by Douyu's public RoomApi endpoint.
#[derive(Debug, Clone)]
pub struct DouyuRoomInfoResponse {
    pub error: i32,
    pub msg: String,
    pub data: Option<DouyuRoomInfo>,
}

/// Room metadata and the live status exposed by RoomApi.
#[derive(Debug, Clone)]
pub struct DouyuRoomInfo {
    pub room_id: String,
    pub room_thumb: String,
    pub room_name: String,
    /// RoomApi uses `"1"` while live and `"2"` while offline.
    pub room_status: String,
    /// Normally a formatted date; older responses expose a Unix timestamp.
    pub start_time: String,
    pub owner_name: String,
    pub owner_uid: String,
    pub avatar: String,
    pub online: u64,
}

/// The response returned by `getH5PlayV1/{rid}`.
#[derive(Debug, Clone)]
pub struct DouyuH5PlayResponse {
    pub error: i32,
    pub msg: String,
    pub data: Option<DouyuH5PlayData>,
}

/// The FLV endpoint information nested in a successful H5 play response.
#[derive(Debug, Clone)]
pub struct DouyuH5PlayData {
    pub room_id: u64,
    pub rtmp_url: String,
    pub rtmp_live: String,
    /// A direct HEVC URL that some responses include; never selected.
    pub player_1: Option<String>,
    pub cdns: Vec<DouyuCdn>,
}

#[derive(Debug, Clone)]
pub struct DouyuCdn {
    pub cdn: String,
}

/// The response returned by `getEncryption`.
#[derive(Debug, Clone)]
pub struct DouyuEncryptionResponse {
    pub error: i32,
    pub msg: String,
    pub data: Option<DouyuEncryptionData>,
}

/// Key material used by Douyu's server-side H5 signature.
#[derive(Debug, Clone)]
pub struct DouyuEncryptionData {
    pub rand_str: String,
    pub enc_time: u32,
    pub expire_at: u64,
    pub key: String,
    pub is_special: bool,
    pub enc_data: String,
}

/// RoomApi's status mapping. `online` is only a fallback for responses that
/// omit a known `room_status`; an explicit offline status always wins.
pub open spec fn room_status_live(room_status: Seq<char>, online: u64) -> bool {
    let s = lower(trim(room_status));
    if s == "1"@ || s == "live"@ || s == "living"@ || s == "on"@ {
        true
    } else if s == "2"@ || s == "0"@ || s == "offline"@ || s == "closed"@ || s == "close"@ {
        false
    } else {
        online > 0
    }
}

pub fn map_room_status(room_status: &str, online: u64) -> (r: bool)
    ensures
        r == room_status_live(room_status@, online),
{
    let t = trim_str(room_status);
    let s = to_lower(&t);
    if eq_str(&s, "1") || eq_str(&s, "live") || eq_str(&s, "living") || eq_str(&s, "on") {
        true
    } else if eq_str(&s, "2") || eq_str(&s, "0") || eq_str(&s, "offline") || eq_str(&s, "closed")
        || eq_str(&s, "close") {
        false
    } else {
        online > 0
    }
}

pub fn room_is_live(room: &DouyuRoomInfo) -> (r: bool)
    ensures
        r == room_status_live(room.room_status@, room.online),
{
    map_room_status(room.room_status.as_str(), room.online)
}

/// A character kept in a path-safe live id: ASCII letters, digits, `-` and
/// `_`; every other character becomes `_`.
pub open spec fn path_safe_char(c: char) -> char {
    if is_ascii_alnum(c) || c == '-' || c == '_' {
        c
    } else {
        '_'
    }
}

/// `s` with every character made path safe.
pub open spec fn path_safe(s: Seq<char>) -> Seq<char> {
    s.map_values(|c: char| path_safe_char(c))
}

/// The session id of a room: its opening time made path safe, else its
/// room id, else the requested room id.
pub open spec fn live_id_of(start_time: Seq<char>, room_id: Seq<char>, requested: u64) -> Seq<char> {
    let start = trim(start_time);
    let safe = path_safe(start);
    if start.len() > 0 && start != "0"@ && trim_char(safe, '_').len() > 0 {
        safe
    } else if trim(room_id).len() > 0 {
        trim(room_id)
    } else {
        decimal(requested as nat)
    }
}

pub fn platform_live_id(room: &DouyuRoomInfo, requested_room_id: u64) -> (r: String)
    ensures
        r@ == live_id_of(room.start_time@, room.room_id@, requested_room_id),
{
    let start = trim_str(room.start_time.as_str());
    if start.len() > 0 && !eq_str(&start, "0") {
        let mut safe: Vec<char> = Vec::new();
        let mut i: usize = 0;
        while i < start.len()
            invariant
                i <= start.len(),
                safe@ == start@.take(i as int).map_values(|c: char| path_safe_char(c)),
            decreases start.len() - i,
        {
            let c = start[i];
            let k = if ascii_alnum(c) || c == '-' || c == '_' {
                c
            } else {
                '_'
            };
            safe.push(k);
            assert(start@.take(i + 1).map_values(|c: char| path_safe_char(c)) =~= start@.take(
                i as int,
            ).map_values(|c: char| path_safe_char(c)).push(path_safe_char(c)));
            i += 1;
        }
        assert(start@.take(start.len() as int) =~= start@);
        let inner = trim_char_exec(&safe, '_');
        if inner.len() > 0 {
            return string_of(&safe);
        }
    }
    let rid = trim_str(room.room_id.as_str());
    if rid.len() > 0 {
        return string_of(&rid);
    }
    let mut d: Vec<char> = Vec::new();
    push_decimal(&mut d, requested_room_id);
    assert(d@ =~= decimal(requested_room_id as nat));
    string_of(&d)
}

/// A live id taken from the opening time holds only ASCII letters, digits,
/// `-` and `_`, so it is a valid path component (no `:` or space).
pub proof fn opening_time_live_id_is_path_safe(start_time: Seq<char>)
    ensures
        forall|i: int|
            0 <= i < start_time.len() ==> is_ascii_alnum(#[trigger] path_safe(start_time)[i])
                || path_safe(start_time)[i] == '-' || path_safe(start_time)[i] == '_',
{
}

/// Messages that mean a room went offline between the status and play
/// requests.
pub open spec fn offline_needles() -> Seq<Seq<char>> {
    seq![
        "offline"@,
        "closeroom"@,
        "closed"@,
        "not live"@,
        "\u{76f4}\u{64ad}\u{5df2}\u{7ed3}\u{675f}"@,
        "\u{623f}\u{95f4}\u{5173}\u{95ed}"@,
        "\u{672a}\u{5f00}\u{64ad}"@,
        "\u{5173}\u{64ad}"@,
        "\u{6ca1}\u{6709}\u{5f00}\u{653e}"@,
        "\u{4e0d}\u{5b58}\u{5728}"@,
    ]
}

/// Messages that mean a request failed authentication.
pub open spec fn auth_needles() -> Seq<Seq<char>> {
    seq![
        "\u{9274}\u{6743}"@,
        "\u{7b7e}\u{540d}"@,
        "authentication"@,
        "signature"@,
        "unauthorized"@,
        "forbidden"@,
        "auth failed"@,
        "token expired"@,
        "token invalid"@,
        "invalid token"@,
    ]
}

/// Whether `text` contains one of `needles`.
pub open spec fn contains_any(text: Seq<char>, needles: Seq<Seq<char>>) -> bool {
    exists|i: int| 0 <= i < needles.len() && contains(text, #[trigger] needles[i])
}

fn contains_any_exec(text: &[char], needles: &[&str]) -> (r: bool)
    ensures
        r == exists|i: int| 0 <= i < needles.len() && contains(text@, #[trigger] needles@[i]@),
{
    let mut i: usize = 0;
    while i < needles.len()
        invariant
            i <= needles.len(),
            forall|j: int| 0 <= j < i ==> !contains(text@, #[trigger] needles@[j]@),
        decreases needles.len() - i,
    {
        if contains_str(text, needles[i]) {
            return true;
        }
        i += 1;
    }
    false
}

/// Douyu reports a room that went offline with codes -5 to -3, or with one
/// of the offline messages (compared case-insensitively).
pub open spec fn offline_error(code: i32, message: Seq<char>) -> bool {
    (-5 <= code <= -3) || contains_any(lower(message), offline_needles())
}

pub fn is_offline_error(code: i32, message: &str) -> (r: bool)
    ensures
        r == offline_error(code, message@),
{
    if -5 <= code && code <= -3 {
        return true;
    }
    let m = chars_of(message);
    let lm = to_lower(&m);
    let needles = [
        "offline",
        "closeroom",
        "closed",
        "not live",
        "\u{76f4}\u{64ad}\u{5df2}\u{7ed3}\u{675f}",
        "\u{623f}\u{95f4}\u{5173}\u{95ed}",
        "\u{672a}\u{5f00}\u{64ad}",
        "\u{5173}\u{64ad}",
        "\u{6ca1}\u{6709}\u{5f00}\u{653e}",
        "\u{4e0d}\u{5b58}\u{5728}",
    ];
    let r = contains_any_exec(&lm, &needles);
    proof {
        assert(needles@.map_values(|s: &str| s@) =~= offline_needles());
        if r {
            let i = choose|i: int| 0 <= i < needles.len() && contains(lm@, #[trigger] needles@[i]@);
            assert(offline_needles()[i] == needles@[i]@);
        } else {
            assert forall|i: int| 0 <= i < offline_needles().len() implies !contains(
                lm@,
                #[trigger] offline_needles()[i],
            ) by {
                assert(offline_needles()[i] == needles@[i]@);
            }
        }
    }
    r
}

/// Whether a response body or API message reports an authentication
/// failure (compared case-insensitively).
pub fn is_auth_failure_text(text: &str) -> (r: bool)
    ensures
        r == contains_any(lower(text@), auth_needles()),
{
    let t = chars_of(text);
    let lt = to_lower(&t);
    let needles = [
        "\u{9274}\u{6743}",
        "\u{7b7e}\u{540d}",
        "authentication",
        "signature",
        "unauthorized",
        "forbidden",
        "auth failed",
        "token expired",
        "token invalid",
        "invalid token",
    ];
    let r = contains_any_exec(&lt, &needles);
    proof {
        assert(needles@.map_values(|s: &str| s@) =~= auth_needles());
        if r {
            let i = choose|i: int| 0 <= i < needles.len() && contains(lt@, #[trigger] needles@[i]@);
            assert(auth_needles()[i] == needles@[i]@);
        } else {
            assert forall|i: int| 0 <= i < auth_needles().len() implies !contains(
                lt@,
                #[trigger] auth_needles()[i],
            ) by {
                assert(auth_needles()[i] == needles@[i]@);
            }
        }
    }
    r
}

/// The AVC FLV URL of a play response: `rtmp_url/rtmp_live` (one slash
/// between them), or `rtmp_live` alone when it is absolute or `rtmp_url` is
/// blank; none when `rtmp_live` is blank. `player_1` is never used.
pub open spec fn play_flv_url(rtmp_url: Seq<char>, rtmp_live: Seq<char>) -> Option<Seq<char>> {
    if trim(rtmp_live).len() == 0 {
        None
    } else if starts_with(rtmp_live, "http://"@) || starts_with(rtmp_live, "https://"@) {
        Some(trim(rtmp_live))
    } else if trim(rtmp_url).len() == 0 {
        Some(trim(rtmp_live))
    } else {
        Some(trim_end_char(rtmp_url, '/') + seq!['/'] + trim_start_char(rtmp_live, '/'))
    }
}

pub fn flv_url(data: &DouyuH5PlayData) -> (r: Option<String>)
    ensures
        match (r, play_flv_url(data.rtmp_url@, data.rtmp_live@)) {
            (Some(u), Some(su)) => u@ == su,
            (None, None) => true,
            _ => false,
        },
{
    let live = chars_of(data.rtmp_live.as_str());
    let live_t = trim_exec(&live);
    if live_t.len() == 0 {
        return None;
    }
    if starts_with_str(&live, "http://") || starts_with_str(&live, "https://") {
        return Some(string_of(&live_t));
    }
    let url = chars_of(data.rtmp_url.as_str());
    let url_t = trim_exec(&url);
    if url_t.len() == 0 {
        return Some(string_of(&live_t));
    }
    let mut r = trim_end_char_exec(&url, '/');
    r.push('/');
    let l = trim_start_char_exec(&live, '/');
    crate::text::append_chars(&mut r, &l);
    Some(string_of(&r))
}

} // verus!
