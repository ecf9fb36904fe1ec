//! Extraction of the room data that Huya embeds in its page scripts.
use vstd::prelude::*;

use crate::json::{i64_member, str_member, Json};
use crate::outside::{capture, choose_item, parse_url, parsed_url, regex_capture, json_parsed, parse_json};
use crate::platforms::PlatformType;
use crate::{RoomInfo, UserInfo};
use crate::text::{
    after_last_char, after_last_char_exec, chars_of, ends_with, ends_with_str, is_white_space,
    push_char, slice_chars, string_of, unicode_alphanumeric, char_is_alphanumeric, white_space,
};
use vstd::string::{StrSliceExecFns, StringExecFns};
use vstd::utf8::encode_utf8;

verus! {

#[derive(Clone, Debug, Default)]
pub struct StreamInfo {
    pub hls_url: String,
}

/// The stream id in an HLS URL: the file name of its path without `.m3u8`.
pub open spec fn hls_stream_id(path: Seq<char>) -> Seq<char> {
    let file = after_last_char(path, '/');
    if ends_with(file, ".m3u8"@) {
        file.take(file.len() - 5)
    } else {
        file
    }
}

impl StreamInfo {
    /// The stream id of this stream's HLS URL, which must be a valid URL.
    pub fn id(&self) -> (r: String)
        requires
            parsed_url(self.hls_url@) is Ok,
        ensures
            r@ == hls_stream_id(parsed_url(self.hls_url@)->Ok_0.path),
    {
        let u = match parse_url(self.hls_url.as_str()) {
            Ok(u) => u,
            Err(_) => {
                assert(false);
                return String::new();
            },
        };
        stream_id_of_path(u.path.as_str())
    }
}

/// The stream id that a parsed HLS URL's path names (see `hls_stream_id`).
pub fn stream_id_of_path(url_path: &str) -> (r: String)
    ensures
        r@ == hls_stream_id(url_path@),
{
    let path = chars_of(url_path);
    let file = after_last_char_exec(&path, '/');
    if ends_with_str(&file, ".m3u8") {
        proof {
            reveal_strlit(".m3u8");
        }
        string_of(&slice_chars(&file, 0, file.len() - 5))
    } else {
        string_of(&file)
    }
}

impl StreamInfo {
    /// The stream id, or `None` when the HLS URL does not parse.
    pub fn try_id(&self) -> (r: Option<String>)
        ensures
            parsed_url(self.hls_url@) is Err <==> r is None,
            r matches Some(id) ==> id@ == hls_stream_id(parsed_url(self.hls_url@)->Ok_0.path),
    {
        match parse_url(self.hls_url.as_str()) {
            Ok(_) => Some(self.id()),
            Err(_) => None,
        }
    }
}

pub struct LiveStreamExtractor;

/// Whether a value is an object.
pub open spec fn is_object(v: Option<Json>) -> bool {
    v matches Some(Json::Object(_))
}

/// The text of an integer member, `0` when there is none.
pub open spec fn int_text(v: Json, key: Seq<char>) -> Seq<char> {
    crate::text::signed_decimal(
        match i64_member(v, key) {
            Some(n) => n as int,
            None => 0,
        },
    )
}

/// A string member, or the empty text.
pub open spec fn text_or_empty(v: Json, key: Seq<char>) -> Seq<char> {
    match str_member(v, key) {
        Some(t) => t,
        None => Seq::empty(),
    }
}

/// Whether a page's global init object holds the room info that the page
/// reading expects: `roomInfo`, with its `tProfileInfo` and `tLiveInfo`, all
/// objects.
pub open spec fn has_room_objects(init: Json) -> bool {
    &&& is_object(init.lookup("roomInfo"@))
    &&& is_object(init.lookup("roomInfo"@)->0.lookup("tProfileInfo"@))
    &&& is_object(init.lookup("roomInfo"@)->0.lookup("tLiveInfo"@))
}

fn int_text_exec(v: &Json, key: &str) -> (r: String)
    ensures
        r@ == int_text(*v, key@),
{
    let n: i64 = match v.get_i64(key) {
        Some(n) => n,
        None => 0,
    };
    let mut out: Vec<char> = Vec::new();
    crate::text::push_signed_decimal(&mut out, n);
    assert(out@ =~= int_text(*v, key@));
    string_of(&out)
}

fn text_or_empty_exec(v: &Json, key: &str) -> (r: String)
    ensures
        r@ == text_or_empty(*v, key@),
{
    match v.get_str(key) {
        Some(t) => t,
        None => String::new(),
    }
}

fn empty_profile() -> (r: (UserInfo, RoomInfo))
    ensures
        r.0.user_id@.len() == 0,
        r.0.user_name@.len() == 0,
        r.0.user_avatar@.len() == 0,
        r.1.platform@.len() == 0,
        r.1.room_id@.len() == 0,
        r.1.room_title@.len() == 0,
        r.1.room_cover@.len() == 0,
        !r.1.status,
{
    (
        UserInfo { user_id: String::new(), user_name: String::new(), user_avatar: String::new() },
        RoomInfo {
            platform: String::new(),
            room_id: String::new(),
            room_title: String::new(),
            room_cover: String::new(),
            status: false,
        },
    )
}

impl LiveStreamExtractor {
    /// The streamer and the room that a page's `window.HNF_GLOBAL_INIT`
    /// object describes: the profile's `lUid`, `sNick` and `sAvatar180`; the
    /// live info's `lProfileRoom`, `sIntroduction` and `sScreenshot`; live
    /// when `eLiveStatus` is 2. Missing numbers read as 0, missing texts as
    /// empty.
    pub fn profile_of(init: &Json) -> (r: (UserInfo, RoomInfo))
        requires
            has_room_objects(*init),
        ensures
            ({
                let room = init.lookup("roomInfo"@)->0;
                let profile = room.lookup("tProfileInfo"@)->0;
                let live = room.lookup("tLiveInfo"@)->0;
                &&& r.0.user_id@ == int_text(profile, "lUid"@)
                &&& r.0.user_name@ == text_or_empty(profile, "sNick"@)
                &&& r.0.user_avatar@ == text_or_empty(profile, "sAvatar180"@)
                &&& r.1.platform@ == "huya"@
                &&& r.1.room_id@ == int_text(live, "lProfileRoom"@)
                &&& r.1.room_title@ == text_or_empty(live, "sIntroduction"@)
                &&& r.1.room_cover@ == text_or_empty(live, "sScreenshot"@)
                &&& r.1.status == (i64_member(room, "eLiveStatus"@) == Some(2i64))
            }),
    {
        let room = match init.get("roomInfo") {
            Some(r) => r,
            None => {
                assert(false);
                return empty_profile();
            },
        };
        let (profile, live) = match (room.get("tProfileInfo"), room.get("tLiveInfo")) {
            (Some(p), Some(l)) => (p, l),
            _ => {
                assert(false);
                return empty_profile();
            },
        };
        let user = UserInfo {
            user_id: int_text_exec(profile, "lUid"),
            user_name: text_or_empty_exec(profile, "sNick"),
            user_avatar: text_or_empty_exec(profile, "sAvatar180"),
        };
        let status: i64 = match room.get_i64("eLiveStatus") {
            Some(n) => n,
            None => 0,
        };
        let info = RoomInfo {
            platform: String::from_str(PlatformType::Huya.as_str()),
            room_id: int_text_exec(live, "lProfileRoom"),
            room_title: text_or_empty_exec(live, "sIntroduction"),
            room_cover: text_or_empty_exec(live, "sScreenshot"),
            status: status == 2,
        };
        (user, info)
    }
}

/// The stream entries of a live page's global init object:
/// `roomInfo.tLiveInfo.tLiveStreamInfo.vStreamInfo.value`, when that path
/// holds objects down to an array.
pub open spec fn stream_entries(init: Json) -> Option<Seq<Json>> {
    let live = crate::json::at(init.lookup("roomInfo"@), "tLiveInfo"@);
    let streams = crate::json::at(live, "tLiveStreamInfo"@);
    let info = crate::json::at(streams, "vStreamInfo"@);
    if is_object(init.lookup("roomInfo"@)) && is_object(live) && is_object(streams) && is_object(info) {
        match crate::json::at(info, "value"@) {
            Some(v) => v.array_items(),
            None => None,
        }
    } else {
        None
    }
}

/// What a stream entry gives for the player: the HLS base URL made secure,
/// the stream name, the presenter's id and the anti-code, all of which the
/// entry must hold (the ids as an integer, the rest as strings).
pub open spec fn entry_complete(entry: Json) -> bool {
    &&& str_member(entry, "sHlsUrl"@) is Some
    &&& str_member(entry, "sHlsAntiCode"@) is Some
    &&& i64_member(entry, "lPresenterUid"@) is Some
    &&& str_member(entry, "sStreamName"@) is Some
}

/// The player URL of a stream entry:
/// `{sHlsUrl with http:// made https://}/{sStreamName}.m3u8?{sHlsAntiCode}`.
pub open spec fn entry_player_url(entry: Json) -> Seq<char> {
    crate::text::replace(str_member(entry, "sHlsUrl"@)->0, "http://"@, "https://"@) + seq!['/']
        + str_member(entry, "sStreamName"@)->0 + ".m3u8?"@ + str_member(entry, "sHlsAntiCode"@)->0
}

/// The player data of one stream entry.
#[derive(Debug, Clone)]
pub struct PlayerParts {
    pub url: String,
    pub stream_name: String,
    pub presenter_uid: String,
    pub hls_anti_code: String,
}

impl LiveStreamExtractor {
    /// The player data of one entry, picked at random, of a live page's
    /// stream entries (see `stream_entries`), which must be there, be
    /// non-empty and each be complete.
    pub fn pick_player_parts(init: &Json) -> (r: PlayerParts)
        requires
            stream_entries(*init) is Some,
            stream_entries(*init)->0.len() > 0,
            forall|i: int|
                0 <= i < stream_entries(*init)->0.len() ==> entry_complete(
                    #[trigger] stream_entries(*init)->0[i],
                ),
        ensures
            exists|i: int|
                0 <= i < stream_entries(*init)->0.len() && {
                    let e = #[trigger] stream_entries(*init)->0[i];
                    &&& r.url@ == entry_player_url(e)
                    &&& r.stream_name@ == str_member(e, "sStreamName"@)->0
                    &&& r.presenter_uid@ == crate::text::signed_decimal(
                        i64_member(e, "lPresenterUid"@)->0 as int,
                    )
                    &&& r.hls_anti_code@ == str_member(e, "sHlsAntiCode"@)->0
                },
    {
        let list = match crate::json::get_at(
            crate::json::get_at(crate::json::get_at(init.get("roomInfo"), "tLiveInfo"), "tLiveStreamInfo"),
            "vStreamInfo",
        ) {
            Some(info) => match info.get("value") {
                Some(v) => match v.as_array() {
                    Some(items) => items,
                    None => {
                        assert(false);
                        return PlayerParts {
                            url: String::new(),
                            stream_name: String::new(),
                            presenter_uid: String::new(),
                            hls_anti_code: String::new(),
                        };
                    },
                },
                None => {
                    assert(false);
                    return PlayerParts {
                        url: String::new(),
                        stream_name: String::new(),
                        presenter_uid: String::new(),
                        hls_anti_code: String::new(),
                    };
                },
            },
            None => {
                assert(false);
                return PlayerParts {
                    url: String::new(),
                    stream_name: String::new(),
                    presenter_uid: String::new(),
                    hls_anti_code: String::new(),
                };
            },
        };
        assert(list@ == stream_entries(*init)->0);
        let entry = choose_item(list);
        let ghost k = choose|i: int| 0 <= i < list.len() && list@[i] == *entry;
        assert(entry_complete(stream_entries(*init)->0[k]));
        let hls_url = match entry.get_str("sHlsUrl") {
            Some(t) => t,
            None => String::new(),
        };
        let anti_code = match entry.get_str("sHlsAntiCode") {
            Some(t) => t,
            None => String::new(),
        };
        let stream_name = match entry.get_str("sStreamName") {
            Some(t) => t,
            None => String::new(),
        };
        let uid: i64 = match entry.get_i64("lPresenterUid") {
            Some(n) => n,
            None => 0,
        };
        let mut presenter: Vec<char> = Vec::new();
        crate::text::push_signed_decimal(&mut presenter, uid);
        assert(presenter@ =~= crate::text::signed_decimal(uid as int));
        let mut url = crate::text::replace_exec(
            &chars_of(hls_url.as_str()),
            &chars_of("http://"),
            &chars_of("https://"),
        );
        url.push('/');
        crate::text::append_str(&mut url, stream_name.as_str());
        crate::text::append_str(&mut url, ".m3u8?");
        crate::text::append_str(&mut url, anti_code.as_str());
        let r = PlayerParts {
            url: string_of(&url),
            stream_name,
            presenter_uid: string_of(&presenter),
            hls_anti_code: anti_code,
        };
        assert(r.url@ =~= entry_player_url(stream_entries(*init)->0[k]));
        r
    }
}

/// Scans a script from index `i` for the end of the object assigned to a
/// variable: the index just past the `}` that closes the first `{`, or the
/// index of a `;` met at brace depth 0 after it; braces inside strings do not
/// count.
pub open spec fn object_end_scan(
    s: Seq<char>,
    i: int,
    depth: int,
    in_string: bool,
    escape_next: bool,
    started: bool,
) -> Option<int>
    decreases s.len() - i,
{
    if i < 0 || i >= s.len() {
        None
    } else {
        let ch = s[i];
        if escape_next {
            object_end_scan(s, i + 1, depth, in_string, false, started)
        } else if ch == '\\' && in_string {
            object_end_scan(s, i + 1, depth, in_string, true, started)
        } else if ch == '"' {
            object_end_scan(s, i + 1, depth, !in_string, false, started)
        } else if ch == '{' && !in_string {
            object_end_scan(s, i + 1, depth + 1, in_string, false, true)
        } else if ch == '}' && !in_string {
            if started && depth - 1 == 0 {
                Some(i + 1)
            } else {
                object_end_scan(s, i + 1, depth - 1, in_string, false, started)
            }
        } else if ch == ';' && !in_string && depth == 0 && started {
            Some(i)
        } else {
            object_end_scan(s, i + 1, depth, in_string, false, started)
        }
    }
}

/// Whether a character continues an unquoted object key.
pub open spec fn key_char(c: char) -> bool {
    unicode_alphanumeric(c) || c == '_'
}

/// The length of the run of key characters that starts `s`.
pub open spec fn key_run(s: Seq<char>) -> nat
    decreases s.len(),
{
    if s.len() > 0 && key_char(s[0]) {
        1 + key_run(s.drop_first())
    } else {
        0
    }
}

/// Rewrites a JavaScript object literal to JSON from the start of `s` on,
/// with the scanner inside a string delimited by `quote` or not, after a
/// backslash or not, and at a key position or not: single-quoted strings
/// become double-quoted, bare keys are quoted, and white space outside
/// strings and keys is dropped.
pub open spec fn js_json(s: Seq<char>, in_string: bool, quote: char, escape_next: bool, in_key: bool) -> Seq<
    char,
>
    decreases s.len(),
{
    if s.len() == 0 {
        Seq::empty()
    } else {
        let ch = s[0];
        let rest = s.drop_first();
        if escape_next {
            seq![ch] + js_json(rest, in_string, quote, false, in_key)
        } else if ch == '\\' && in_string {
            seq![ch] + js_json(rest, in_string, quote, true, in_key)
        } else if (ch == '\'' || ch == '"') && !in_string {
            seq!['"'] + js_json(rest, true, ch, false, in_key)
        } else if in_string && ch == quote {
            seq!['"'] + js_json(rest, false, quote, false, in_key)
        } else if ch == ':' && !in_string && in_key {
            seq![':'] + js_json(rest, in_string, quote, false, false)
        } else if ch == ',' && !in_string && !in_key {
            seq![','] + js_json(rest, in_string, quote, false, true)
        } else if (ch == '{' || ch == '}' || ch == '[' || ch == ']') && !in_string {
            seq![ch] + js_json(rest, in_string, quote, false, in_key)
        } else if in_string {
            seq![ch] + js_json(rest, in_string, quote, false, in_key)
        } else if (in_key && unicode_alphanumeric(ch)) || ch == '_' {
            let n = key_run(rest);
            proof {
                lemma_key_run_bound(rest);
            }
            seq!['"', ch] + rest.take(n as int) + seq!['"'] + js_json(
                rest.skip(n as int),
                in_string,
                quote,
                false,
                in_key,
            )
        } else if !in_key && is_white_space(ch) {
            js_json(rest, in_string, quote, false, in_key)
        } else {
            seq![ch] + js_json(rest, in_string, quote, false, in_key)
        }
    }
}

pub proof fn lemma_key_run_bound(s: Seq<char>)
    ensures
        key_run(s) <= s.len(),
        forall|j: int| 0 <= j < key_run(s) ==> key_char(#[trigger] s[j]),
        key_run(s) < s.len() ==> !key_char(s[key_run(s) as int]),
    decreases s.len(),
{
    if s.len() > 0 && key_char(s[0]) {
        lemma_key_run_bound(s.drop_first());
        assert forall|j: int| 0 <= j < key_run(s) implies key_char(#[trigger] s[j]) by {
            if j > 0 {
                assert(s[j] == s.drop_first()[j - 1]);
            }
        }
    }
}

impl LiveStreamExtractor {
    /// The byte offset at which the object assigned to a variable ends in
    /// the script text `s` (see `object_end_scan`).
    pub fn find_json_end(s: &str) -> (r: Option<usize>)
        ensures
            match object_end_scan(s@, 0, 0, false, false, false) {
                Some(k) => r == Some(encode_utf8(s@.take(k)).len() as usize),
                None => r is None,
            },
    {
        match Self::object_end_index(s) {
            Some(k) => Some(Self::byte_offset(s, k)),
            None => None,
        }
    }

    /// The character index at which the object assigned to a variable ends
    /// in the script text `s` (see `object_end_scan`).
    fn object_end_index(s: &str) -> (r: Option<usize>)
        ensures
            match object_end_scan(s@, 0, 0, false, false, false) {
                Some(k) => r matches Some(j) && j == k && 0 <= k <= s@.len(),
                None => r is None,
            },
    {
        let v = chars_of(s);
        let mut depth: i128 = 0;
        let mut in_string = false;
        let mut escape_next = false;
        let mut started = false;
        let mut i: usize = 0;
        while i < v.len()
            invariant
                i <= v.len(),
                v@ == s@,
                -(i as int) <= depth <= i as int,
                object_end_scan(s@, 0, 0, false, false, false) == object_end_scan(
                    s@,
                    i as int,
                    depth as int,
                    in_string,
                    escape_next,
                    started,
                ),
            decreases v.len() - i,
        {
            let ch = v[i];
            if escape_next {
                escape_next = false;
            } else if ch == '\\' && in_string {
                escape_next = true;
            } else if ch == '"' {
                in_string = !in_string;
            } else if ch == '{' && !in_string {
                depth = depth + 1;
                started = true;
            } else if ch == '}' && !in_string {
                depth = depth - 1;
                if started && depth == 0 {
                    return Some(i + 1);
                }
            } else if ch == ';' && !in_string && depth == 0 && started {
                return Some(i);
            }
            i += 1;
        }
        None
    }

    /// The length in bytes of the first `k` characters of `s`.
    fn byte_offset(s: &str, k: usize) -> (r: usize)
        requires
            k <= s@.len(),
        ensures
            r == encode_utf8(s@.take(k as int)).len() as usize,
    {
        let prefix = s.substring_char(0, k);
        assert(prefix@ == s@.take(k as int));
        prefix.len()
    }

    /// Rewrites a JavaScript object literal as JSON (see `js_json`).
    pub fn js_to_json(js_obj: &str) -> (r: String)
        ensures
            r@ == js_json(js_obj@, false, '"', false, true),
    {
        let s = chars_of(js_obj);
        let mut out: Vec<char> = Vec::new();
        let mut in_string = false;
        let mut quote = '"';
        let mut escape_next = false;
        let mut in_key = true;
        let mut i: usize = 0;
        assert(s@.subrange(0, s.len() as int) =~= s@);
        while i < s.len()
            invariant
                i <= s.len(),
                s@ == js_obj@,
                js_json(s@, false, '"', false, true) == out@ + js_json(
                    s@.subrange(i as int, s.len() as int),
                    in_string,
                    quote,
                    escape_next,
                    in_key,
                ),
            decreases s.len() - i,
        {
            let ghost rest = s@.subrange(i as int, s.len() as int);
            let ghost old_out = out@;
            assert(rest.drop_first() =~= s@.subrange(i + 1, s.len() as int));
            let ch = s[i];
            if escape_next {
                out.push(ch);
                escape_next = false;
                i += 1;
            } else if ch == '\\' && in_string {
                out.push(ch);
                escape_next = true;
                i += 1;
            } else if (ch == '\'' || ch == '"') && !in_string {
                in_string = true;
                quote = ch;
                out.push('"');
                i += 1;
            } else if in_string && ch == quote {
                in_string = false;
                out.push('"');
                i += 1;
            } else if ch == ':' && !in_string && in_key {
                out.push(':');
                in_key = false;
                i += 1;
            } else if ch == ',' && !in_string && !in_key {
                out.push(',');
                in_key = true;
                i += 1;
            } else if (ch == '{' || ch == '}' || ch == '[' || ch == ']') && !in_string {
                out.push(ch);
                i += 1;
            } else if in_string {
                out.push(ch);
                i += 1;
            } else if (in_key && char_is_alphanumeric(ch)) || ch == '_' {
                out.push('"');
                out.push(ch);
                let mut j = i + 1;
                proof {
                    lemma_key_run_bound(rest.drop_first());
                }
                while j < s.len() && (char_is_alphanumeric(s[j]) || s[j] == '_')
                    invariant
                        i < j <= s.len(),
                        rest == s@.subrange(i as int, s.len() as int),
                        key_run(rest.drop_first()) >= j - i - 1,
                        key_run(rest.drop_first()) <= rest.len() - 1,
                        forall|t: int| 0 <= t < key_run(rest.drop_first()) ==> key_char(#[trigger] rest.drop_first()[t]),
                        key_run(rest.drop_first()) < rest.len() - 1 ==> !key_char(rest.drop_first()[key_run(rest.drop_first()) as int]),
                        out@ == old_out + seq!['"', ch] + s@.subrange(i + 1, j as int),
                    decreases s.len() - j,
                {
                    assert(s@[j as int] == rest.drop_first()[j - i - 1]);
                    out.push(s[j]);
                    assert(out@ =~= old_out + seq!['"', ch] + s@.subrange(i + 1, j + 1));
                    j += 1;
                }
                proof {
                    let n = key_run(rest.drop_first());
                    if j < s.len() {
                        assert(s@[j as int] == rest.drop_first()[j - i - 1]);
                    }
                    assert(n == j - i - 1);
                    assert(rest.drop_first().take(n as int) =~= s@.subrange(i + 1, j as int));
                    assert(rest.drop_first().skip(n as int) =~= s@.subrange(j as int, s.len() as int));
                }
                out.push('"');
                i = j;
            } else if !in_key && white_space(ch) {
                i += 1;
            } else {
                out.push(ch);
                i += 1;
            }
        }
        assert(s@.subrange(i as int, s.len() as int) =~= Seq::<char>::empty());
        assert(out@ + Seq::<char>::empty() =~= out@);
        string_of(&out)
    }
}


// ---------------------------------------------------------------------------
// Reading the page script
// ---------------------------------------------------------------------------

/// What can go wrong reading a Huya page's script data.
#[derive(Debug)]
pub enum HuyaClientError {
    ExtractorError(String),
}

/// A character that has a meaning in a regular expression.
pub open spec fn regex_meta(c: char) -> bool {
    c == '\\' || c == '.' || c == '+' || c == '*' || c == '?' || c == '(' || c == ')' || c == '|'
        || c == '[' || c == ']' || c == '{' || c == '}' || c == '^' || c == '$' || c == '#' || c == '&'
        || c == '-' || c == '~'
}

/// `regex::escape`: a backslash before every meta character.
pub open spec fn regex_escaped(s: Seq<char>) -> Seq<char>
    decreases s.len(),
{
    if s.len() == 0 {
        Seq::empty()
    } else if regex_meta(s.last()) {
        regex_escaped(s.drop_last()) + seq!['\\', s.last()]
    } else {
        regex_escaped(s.drop_last()).push(s.last())
    }
}

pub fn regex_escape(text: &str) -> (r: String)
    ensures
        r@ == regex_escaped(text@),
{
    let v = chars_of(text);
    let mut out: Vec<char> = Vec::new();
    let mut i: usize = 0;
    while i < v.len()
        invariant
            i <= v.len(),
            v@ == text@,
            out@ == regex_escaped(v@.take(i as int)),
        decreases v.len() - i,
    {
        let c = v[i];
        proof {
            assert(v@.take(i + 1).drop_last() =~= v@.take(i as int));
            assert(v@.take(i + 1).last() == c);
        }
        if c == '\\' || c == '.' || c == '+' || c == '*' || c == '?' || c == '(' || c == ')' || c == '|'
            || c == '[' || c == ']' || c == '{' || c == '}' || c == '^' || c == '$' || c == '#' || c
            == '&' || c == '-' || c == '~' {
            out.push('\\');
        }
        out.push(c);
        proof {
            assert(out@ =~= regex_escaped(v@.take(i + 1)));
        }
        i += 1;
    }
    assert(v@.take(v.len() as int) =~= v@);
    string_of(&out)
}

/// The pattern that finds an assignment to `var_name` and takes the script
/// text after `=` and the white space around it.
pub open spec fn variable_pattern(var_name: Seq<char>) -> Seq<char> {
    regex_escaped(var_name) + "\\s*=\\s*([\\s\\S]*)"@
}

/// The JSON text of the object assigned to `var_name` in a page script: the
/// script after the first `var_name = `, cut where the object ends (see
/// `object_end_scan`) and rewritten as JSON (see `js_json`); an extractor
/// error when there is no such assignment or the object does not end.
pub open spec fn variable_object(js: Seq<char>, var_name: Seq<char>) -> Result<Seq<char>, Seq<char>> {
    match regex_capture(variable_pattern(var_name), js, 1) {
        None => Err("Variable "@ + var_name + " not found"@),
        Some(rest) => match object_end_scan(rest, 0, 0, false, false, false) {
            None => Err("Could not find end of JSON for variable "@ + var_name),
            Some(k) => Ok(js_json(rest.take(k), false, '"', false, true)),
        },
    }
}

pub open spec fn extractor_error(e: HuyaClientError, msg: Seq<char>) -> bool {
    e matches HuyaClientError::ExtractorError(m) && m@ == msg
}

impl LiveStreamExtractor {
    /// The JSON text of the object assigned to `var_name` in the page script
    /// `js_content` (see `variable_object`); the caller parses it.
    pub fn variable_object_text(js_content: &str, var_name: &str) -> (r: Result<String, HuyaClientError>)
        ensures
            match variable_object(js_content@, var_name@) {
                Ok(t) => r matches Ok(u) && u@ == t,
                Err(msg) => r matches Err(e) && extractor_error(e, msg),
            },
    {
        let mut pattern = chars_of(regex_escape(var_name).as_str());
        crate::text::append_str(&mut pattern, "\\s*=\\s*([\\s\\S]*)");
        let pattern = string_of(&pattern);
        let rest = match capture(pattern.as_str(), js_content, 1) {
            Some(t) => t,
            None => {
                let mut m = chars_of("Variable ");
                crate::text::append_str(&mut m, var_name);
                crate::text::append_str(&mut m, " not found");
                return Err(HuyaClientError::ExtractorError(string_of(&m)));
            },
        };
        match Self::object_end_index(rest.as_str()) {
            Some(k) => {
                let obj = rest.as_str().substring_char(0, k);
                assert(obj@ == rest@.take(k as int));
                Ok(Self::js_to_json(obj))
            },
            None => {
                let mut m = chars_of("Could not find end of JSON for variable ");
                crate::text::append_str(&mut m, var_name);
                Err(HuyaClientError::ExtractorError(string_of(&m)))
            },
        }
    }
}

/// Whether every stream entry of a page is usable: the entries are there,
/// there is at least one, and each is complete.
pub open spec fn entries_usable(init: Json) -> bool {
    &&& stream_entries(init) is Some
    &&& stream_entries(init)->0.len() > 0
    &&& forall|i: int| 0 <= i < stream_entries(init)->0.len() ==> entry_complete(#[trigger] stream_entries(init)->0[i])
}

/// An optional reference as an optional value.
pub open spec fn deref_json(v: Option<&Json>) -> Option<Json> {
    match v {
        Some(j) => Some(*j),
        None => None,
    }
}

/// Whether a user and a room are those that `profile_of` reads from a
/// page's global init object.
pub open spec fn profile_matches(init: Json, u: UserInfo, i: RoomInfo) -> bool {
    let room = init.lookup("roomInfo"@)->0;
    let profile = room.lookup("tProfileInfo"@)->0;
    let live = room.lookup("tLiveInfo"@)->0;
    &&& u.user_id@ == int_text(profile, "lUid"@)
    &&& u.user_name@ == text_or_empty(profile, "sNick"@)
    &&& u.user_avatar@ == text_or_empty(profile, "sAvatar180"@)
    &&& i.platform@ == "huya"@
    &&& i.room_id@ == int_text(live, "lProfileRoom"@)
    &&& i.room_title@ == text_or_empty(live, "sIntroduction"@)
    &&& i.room_cover@ == text_or_empty(live, "sScreenshot"@)
    &&& i.status == (i64_member(room, "eLiveStatus"@) == Some(2i64))
}

fn is_object_exec(v: Option<&Json>) -> (r: bool)
    ensures
        r == is_object(deref_json(v)),
{
    match v {
        Some(Json::Object(_)) => true,
        _ => false,
    }
}

fn has_room_objects_exec(init: &Json) -> (r: bool)
    ensures
        r == has_room_objects(*init),
{
    match init.get("roomInfo") {
        Some(room) => match room {
            Json::Object(_) => is_object_exec(room.get("tProfileInfo")) && is_object_exec(room.get("tLiveInfo")),
            _ => false,
        },
        None => false,
    }
}

fn entry_complete_exec(e: &Json) -> (r: bool)
    ensures
        r == entry_complete(*e),
{
    e.get_str("sHlsUrl").is_some() && e.get_str("sHlsAntiCode").is_some() && e.get_i64("lPresenterUid").is_some()
        && e.get_str("sStreamName").is_some()
}

fn entries_usable_exec(init: &Json) -> (r: bool)
    ensures
        r == entries_usable(*init),
{
    let room = init.get("roomInfo");
    let live = crate::json::get_at(room, "tLiveInfo");
    let streams = crate::json::get_at(live, "tLiveStreamInfo");
    let info = crate::json::get_at(streams, "vStreamInfo");
    if !(is_object_exec(room) && is_object_exec(live) && is_object_exec(streams) && is_object_exec(info)) {
        return false;
    }
    let items = match crate::json::get_at(info, "value") {
        Some(v) => match v.as_array() {
            Some(items) => items,
            None => return false,
        },
        None => return false,
    };
    assert(stream_entries(*init) == Some(items@));
    if items.len() == 0 {
        return false;
    }
    let mut i: usize = 0;
    while i < items.len()
        invariant
            i <= items.len(),
            stream_entries(*init) == Some(items@),
            forall|j: int| 0 <= j < i ==> entry_complete(#[trigger] items@[j]),
        decreases items.len() - i,
    {
        if !entry_complete_exec(&items[i]) {
            return false;
        }
        i += 1;
    }
    true
}

/// What `infos_of` gives for a page's global init object: an error when
/// the room objects are missing; for a room that is not live, its profile
/// and no stream; for a live room, an error when its stream entries are
/// not usable, else its profile and the player URL of one of the entries.
pub open spec fn infos_outcome(init: Json, r: Result<(UserInfo, RoomInfo, StreamInfo), HuyaClientError>) -> bool {
    &&& !has_room_objects(init) ==> (r matches Err(e) && extractor_error(e, "Missing room info in page data"@))
    &&& has_room_objects(init) ==> {
        let room = init.lookup("roomInfo"@)->0;
        let live = i64_member(room, "eLiveStatus"@) == Some(2i64);
        &&& !live ==> (r matches Ok((u, i, st)) && profile_matches(init, u, i) && st.hls_url@.len() == 0)
        &&& (live && !entries_usable(init)) ==> (r matches Err(e) && extractor_error(
            e,
            "Missing stream entries in page data"@,
        ))
        &&& (live && entries_usable(init)) ==> (r matches Ok((u, i, st)) && profile_matches(init, u, i)
            && exists|k: int|
            0 <= k < stream_entries(init)->0.len() && st.hls_url@ == entry_player_url(
                #[trigger] stream_entries(init)->0[k],
            ))
    }
}

/// What `extract_infos` gives for a page script: the errors of finding the
/// `window.HNF_GLOBAL_INIT` object or of parsing its JSON text, else what
/// `infos_of` gives for the parsed object.
pub open spec fn script_outcome(js: Seq<char>, r: Result<(UserInfo, RoomInfo, StreamInfo), HuyaClientError>) -> bool {
    match variable_object(js, "window.HNF_GLOBAL_INIT"@) {
        Err(msg) => r matches Err(e) && extractor_error(e, msg),
        Ok(text) => match json_parsed(text) {
            Err(msg) => r matches Err(e) && extractor_error(e, msg),
            Ok(init) => infos_outcome(init, r),
        },
    }
}

impl LiveStreamExtractor {
    /// The streamer, room and stream that a Huya room page's script holds:
    /// the `window.HNF_GLOBAL_INIT` object is cut out, rewritten as JSON,
    /// parsed, and read (see `script_outcome`).
    pub fn extract_infos(js_content: &str) -> (r: Result<(UserInfo, RoomInfo, StreamInfo), HuyaClientError>)
        ensures
            script_outcome(js_content@, r),
    {
        let text = Self::variable_object_text(js_content, "window.HNF_GLOBAL_INIT")?;
        match parse_json(text.as_str()) {
            Ok(init) => Self::infos_of(&init),
            Err(e) => Err(HuyaClientError::ExtractorError(e)),
        }
    }

    /// The streamer, the room and the stream that a page's global init
    /// object describes (see `profile_of`); while the room is live the stream
    /// is the player URL of one stream entry picked at random (see
    /// `pick_player_parts`), else it is empty. A page without the room
    /// objects, or live without usable stream entries, gives an extractor
    /// error.
    pub fn infos_of(init: &Json) -> (r: Result<(UserInfo, RoomInfo, StreamInfo), HuyaClientError>)
        ensures
            infos_outcome(*init, r),
    {
        if !has_room_objects_exec(init) {
            return Err(HuyaClientError::ExtractorError("Missing room info in page data".to_string()));
        }
        let (user, room) = Self::profile_of(init);
        if !room.status {
            return Ok((user, room, StreamInfo { hls_url: String::new() }));
        }
        if !entries_usable_exec(init) {
            return Err(HuyaClientError::ExtractorError("Missing stream entries in page data".to_string()));
        }
        let parts = Self::pick_player_parts(init);
        Ok((user, room, StreamInfo { hls_url: parts.url }))
    }
}

} // verus!
