//! YouTube: room identifiers and page data.
use vstd::prelude::*;

use crate::errors::RecorderError;
use crate::media::stream_info::or_empty;
use crate::outside::{form_decoded, form_pairs, parse_url, parsed_url, ParsedUrl, UrlParts};
use crate::platforms::douyu::response::{contains_any};
use crate::text::{
    append_chars, append_str, ascii_alnum, chars_eq, chars_of, char_is_alphanumeric, ends_with,
    ends_with_str, eq_str, is_ascii_alnum, lower, nonempty_items, nonempty_strings, slice_chars,
    starts_with, starts_with_str, string_of, to_lower, trim, trim_str, unicode_alphanumeric,
    vecs_view,
};

pub mod page;

verus! {

/// An 11-character YouTube video id of ASCII letters, digits, `_` and `-`.
pub open spec fn video_id(v: Seq<char>) -> bool {
    v.len() == 11 && forall|i: int|
        0 <= i < v.len() ==> is_ascii_alnum(#[trigger] v[i]) || v[i] == '_' || v[i] == '-'
}

/// A channel id: `UC` followed by at least one ASCII letter, digit, `_` or
/// `-`.
pub open spec fn channel_id(v: Seq<char>) -> bool {
    starts_with(v, "UC"@) && v.len() > 2 && forall|i: int|
        0 <= i < v.len() ==> is_ascii_alnum(#[trigger] v[i]) || v[i] == '_' || v[i] == '-'
}

/// A Unicode letter or digit (`char::is_alphanumeric`), with what that
/// implies: it is no white space, and an ASCII one is an ASCII letter or
/// digit.
pub open spec fn handle_alnum(c: char) -> bool {
    &&& unicode_alphanumeric(c)
    &&& !crate::text::is_white_space(c)
    &&& (c as u32) < 128 ==> is_ascii_alnum(c)
}

/// A handle: `@` followed by at least one Unicode letter or digit, `_`,
/// `-`, `.` or `%`.
pub open spec fn valid_handle(v: Seq<char>) -> bool {
    v.len() > 1 && v[0] == '@' && forall|i: int|
        1 <= i < v.len() ==> handle_alnum(#[trigger] v[i]) || v[i] == '_' || v[i] == '-'
            || v[i] == '.' || v[i] == '%'
}

/// A slug of a legacy `/c/` or `/user/` URL.
pub open spec fn legacy_slug(v: Seq<char>) -> bool {
    v.len() > 0 && forall|i: int|
        0 <= i < v.len() ==> is_ascii_alnum(#[trigger] v[i]) || v[i] == '-' || v[i] == '_' || v[i]
            == '.' || v[i] == '%'
}

fn all_id_chars(v: &[char]) -> (r: bool)
    ensures
        r == forall|i: int|
            0 <= i < v.len() ==> is_ascii_alnum(#[trigger] v@[i]) || v@[i] == '_' || v@[i] == '-',
{
    let mut i: usize = 0;
    while i < v.len()
        invariant
            i <= v.len(),
            forall|j: int|
                0 <= j < i ==> is_ascii_alnum(#[trigger] v@[j]) || v@[j] == '_' || v@[j] == '-',
        decreases v.len() - i,
    {
        if !(ascii_alnum(v[i]) || v[i] == '_' || v[i] == '-') {
            return false;
        }
        i += 1;
    }
    true
}

pub fn is_video_id(value: &[char]) -> (r: bool)
    ensures
        r == video_id(value@),
{
    value.len() == 11 && all_id_chars(value)
}

pub fn is_channel_id(value: &[char]) -> (r: bool)
    ensures
        r == channel_id(value@),
{
    starts_with_str(value, "UC") && value.len() > 2 && all_id_chars(value)
}

pub fn is_valid_handle(value: &[char]) -> (r: bool)
    ensures
        r == valid_handle(value@),
{
    if value.len() < 2 || value[0] != '@' {
        return false;
    }
    let mut i: usize = 1;
    while i < value.len()
        invariant
            1 <= i <= value.len(),
            forall|j: int|
                1 <= j < i ==> handle_alnum(#[trigger] value@[j]) || value@[j] == '_'
                    || value@[j] == '-' || value@[j] == '.' || value@[j] == '%',
        decreases value.len() - i,
    {
        let c = value[i];
        if !(char_is_alphanumeric(c) || c == '_' || c == '-' || c == '.' || c == '%') {
            return false;
        }
        i += 1;
    }
    true
}

pub open spec fn legacy_room_id(kind: Seq<char>, slug: Seq<char>) -> Option<Seq<char>> {
    if legacy_slug(slug) {
        Some("legacy-"@ + kind + seq!['-'] + slug)
    } else {
        None
    }
}

pub fn safe_legacy_room_id(kind: &str, slug: &[char]) -> (r: Result<String, RecorderError>)
    ensures
        match legacy_room_id(kind@, slug@) {
            Some(id) => r matches Ok(s) && s@ == id,
            None => r == Err::<String, RecorderError>(RecorderError::InvalidValue),
        },
{
    if slug.len() == 0 {
        return Err(RecorderError::InvalidValue);
    }
    let mut i: usize = 0;
    while i < slug.len()
        invariant
            i <= slug.len(),
            forall|j: int|
                0 <= j < i ==> is_ascii_alnum(#[trigger] slug@[j]) || slug@[j] == '-' || slug@[j]
                    == '_' || slug@[j] == '.' || slug@[j] == '%',
        decreases slug.len() - i,
    {
        let c = slug[i];
        if !(ascii_alnum(c) || c == '-' || c == '_' || c == '.' || c == '%') {
            return Err(RecorderError::InvalidValue);
        }
        i += 1;
    }
    let mut r = chars_of("legacy-");
    append_str(&mut r, kind);
    r.push('-');
    append_chars(&mut r, slug);
    Ok(string_of(&r))
}

/// The value of the first pair named `v`.
pub open spec fn first_v(pairs: Seq<(Seq<char>, Seq<char>)>) -> Option<Seq<char>>
    decreases pairs.len(),
{
    if pairs.len() == 0 {
        None
    } else if pairs[0].0 == "v"@ {
        Some(pairs[0].1)
    } else {
        first_v(pairs.drop_first())
    }
}

pub open spec fn when(b: bool, v: Seq<char>) -> Option<Seq<char>> {
    if b {
        Some(v)
    } else {
        None
    }
}

/// The room key a YouTube URL path names, given its non-empty segments.
pub open spec fn room_from_path(host: Seq<char>, segs: Seq<Seq<char>>) -> Option<Seq<char>> {
    if host == "youtu.be"@ {
        if segs.len() == 0 {
            None
        } else {
            when(video_id(segs[0]), segs[0])
        }
    } else if segs.len() == 0 {
        None
    } else {
        let first = segs[0];
        if first == "watch"@ {
            None
        } else if first == "live"@ || first == "shorts"@ || first == "embed"@ || first == "v"@ {
            if segs.len() < 2 {
                None
            } else {
                when(video_id(segs[1]), segs[1])
            }
        } else if first == "channel"@ {
            if segs.len() < 2 {
                None
            } else {
                when(channel_id(segs[1]), segs[1])
            }
        } else if first == "c"@ || first == "user"@ {
            if segs.len() < 2 {
                None
            } else {
                legacy_room_id(first, segs[1])
            }
        } else if starts_with(first, "@"@) {
            when(valid_handle(first), first)
        } else {
            when(valid_handle(seq!['@'] + first), seq!['@'] + first)
        }
    }
}

/// Whether a host belongs to YouTube.
pub open spec fn youtube_host(host: Seq<char>) -> bool {
    host == "youtube.com"@ || ends_with(host, ".youtube.com"@) || host == "youtu.be"@
}

pub open spec fn bare_youtube_prefix(id: Seq<char>) -> bool {
    starts_with(id, "youtube.com/"@) || starts_with(id, "www.youtube.com/"@) || starts_with(
        id,
        "m.youtube.com/"@,
    ) || starts_with(id, "youtu.be/"@)
}

/// The single path-safe room key that a video id, channel id, handle,
/// legacy key or YouTube URL names; `None` when it names none.
pub open spec fn canonical_room_id(raw: Seq<char>) -> Option<Seq<char>> {
    let id = trim(raw);
    if id.len() == 0 {
        None
    } else if video_id(id) || channel_id(id) || valid_handle(id) {
        Some(id)
    } else if starts_with(id, "legacy-c-"@) {
        legacy_room_id("c"@, id.subrange(9, id.len() as int))
    } else if starts_with(id, "legacy-user-"@) {
        legacy_room_id("user"@, id.subrange(12, id.len() as int))
    } else {
        let url = if starts_with(id, "bsr://"@) {
            "https://"@ + id.subrange(6, id.len() as int)
        } else if bare_youtube_prefix(id) {
            "https://"@ + id
        } else {
            id
        };
        if !starts_with(url, "http://"@) && !starts_with(url, "https://"@) {
            when(valid_handle(seq!['@'] + url), seq!['@'] + url)
        } else {
            match parsed_url(url) {
                Err(_) => None,
                Ok(u) => room_of_url(u),
            }
        }
    }
}

/// The room key a parsed URL names: for a YouTube host, the `v` query
/// value when there is one (if it is a video id), else what the path names.
pub open spec fn room_of_url(u: UrlParts) -> Option<Seq<char>> {
    let host = lower(or_empty(u.host));
    if !youtube_host(host) {
        None
    } else {
        let v = match u.query {
            Some(q) => first_v(form_decoded(q)),
            None => None,
        };
        match v {
            Some(vid) => when(video_id(vid), vid),
            None => room_from_path(
                host,
                nonempty_items(
                    match u.path_segments {
                        Some(s) => s,
                        None => Seq::empty(),
                    },
                ),
            ),
        }
    }
}

pub open spec fn room_result(r: Result<String, RecorderError>, o: Option<Seq<char>>) -> bool {
    match o {
        Some(id) => r matches Ok(s) && s@ == id,
        None => r == Err::<String, RecorderError>(RecorderError::InvalidValue),
    }
}

fn first_v_exec(pairs: &Vec<(String, String)>) -> (r: Option<String>)
    ensures
        match (r, first_v(pairs@.map_values(|p: (String, String)| (p.0@, p.1@)))) {
            (Some(v), Some(sv)) => v@ == sv,
            (None, None) => true,
            _ => false,
        },
{
    let ghost pv = pairs@.map_values(|p: (String, String)| (p.0@, p.1@));
    let mut i: usize = 0;
    assert(pv.subrange(0, pv.len() as int) =~= pv);
    while i < pairs.len()
        invariant
            i <= pairs.len(),
            pv == pairs@.map_values(|p: (String, String)| (p.0@, p.1@)),
            first_v(pv) == first_v(pv.subrange(i as int, pv.len() as int)),
        decreases pairs.len() - i,
    {
        let ghost rest = pv.subrange(i as int, pv.len() as int);
        assert(rest[0] == (pairs@[i as int].0@, pairs@[i as int].1@));
        let k = chars_of(pairs[i].0.as_str());
        if eq_str(&k, "v") {
            return Some(pairs[i].1.clone());
        }
        assert(rest.drop_first() =~= pv.subrange(i + 1, pv.len() as int));
        i += 1;
    }
    assert(pv.subrange(i as int, pv.len() as int) =~= Seq::<(Seq<char>, Seq<char>)>::empty());
    None
}

fn checked(ok: bool, v: &[char]) -> (r: Result<String, RecorderError>)
    ensures
        room_result(r, when(ok, v@)),
{
    if ok {
        Ok(string_of(v))
    } else {
        Err(RecorderError::InvalidValue)
    }
}

fn room_from_path_exec(host: &[char], segs: &Vec<Vec<char>>) -> (r: Result<String, RecorderError>)
    ensures
        room_result(r, room_from_path(host@, vecs_view(segs@))),
{
    let ghost sv = vecs_view(segs@);
    if segs.len() > 0 {
        assert(sv[0] == segs@[0]@);
    }
    if segs.len() > 1 {
        assert(sv[1] == segs@[1]@);
    }
    if eq_str(host, "youtu.be") {
        if segs.len() == 0 {
            return Err(RecorderError::InvalidValue);
        }
        return checked(is_video_id(&segs[0]), &segs[0]);
    }
    if segs.len() == 0 {
        return Err(RecorderError::InvalidValue);
    }
    let first = &segs[0];
    if eq_str(first, "watch") {
        Err(RecorderError::InvalidValue)
    } else if eq_str(first, "live") || eq_str(first, "shorts") || eq_str(first, "embed") || eq_str(
        first,
        "v",
    ) {
        if segs.len() < 2 {
            return Err(RecorderError::InvalidValue);
        }
        checked(is_video_id(&segs[1]), &segs[1])
    } else if eq_str(first, "channel") {
        if segs.len() < 2 {
            return Err(RecorderError::InvalidValue);
        }
        checked(is_channel_id(&segs[1]), &segs[1])
    } else if eq_str(first, "c") || eq_str(first, "user") {
        if segs.len() < 2 {
            return Err(RecorderError::InvalidValue);
        }
        let kind = string_of(first);
        safe_legacy_room_id(kind.as_str(), &segs[1])
    } else if starts_with_str(first, "@") {
        checked(is_valid_handle(first), first)
    } else {
        let mut h = vec!['@'];
        append_chars(&mut h, first);
        assert(h@ =~= seq!['@'] + first@);
        checked(is_valid_handle(&h), &h)
    }
}

/// The room key a parsed URL names (see `room_of_url`).
pub fn room_id_of_url(parsed: &ParsedUrl) -> (r: Result<String, RecorderError>)
    ensures
        room_result(r, room_of_url(parsed@)),
{
    let host_raw = match &parsed.host {
        Some(h) => chars_of(h.as_str()),
        None => Vec::new(),
    };
    proof {
        if parsed.host is None {
            assert(host_raw@ =~= or_empty(parsed@.host));
        }
    }
    let host = to_lower(&host_raw);
    let is_youtube = eq_str(&host, "youtube.com") || ends_with_str(&host, ".youtube.com") || eq_str(
        &host,
        "youtu.be",
    );
    if !is_youtube {
        return Err(RecorderError::InvalidValue);
    }
    let v = match &parsed.query {
        Some(q) => {
            let pairs = form_pairs(q.as_str());
            first_v_exec(&pairs)
        },
        None => None,
    };
    if let Some(vid) = v {
        let vc = chars_of(vid.as_str());
        return checked(is_video_id(&vc), &vc);
    }
    let segs = match &parsed.path_segments {
        Some(s) => nonempty_strings(s),
        None => {
            let e: Vec<String> = Vec::new();
            assert(e@.map_values(|s: String| s@) =~= Seq::<Seq<char>>::empty());
            nonempty_strings(&e)
        },
    };
    room_from_path_exec(&host, &segs)
}

/// Normalizes a user-supplied video or channel URL to a single safe room
/// key. Room ids are used as filesystem and HTTP path segments, so full URLs
/// are never returned.
pub fn normalize_room_id(identifier: &str) -> (r: Result<String, RecorderError>)
    ensures
        room_result(r, canonical_room_id(identifier@)),
{
    let id = trim_str(identifier);
    if id.len() == 0 {
        return Err(RecorderError::InvalidValue);
    }
    if is_video_id(&id) || is_channel_id(&id) || is_valid_handle(&id) {
        return Ok(string_of(&id));
    }
    if starts_with_str(&id, "legacy-c-") {
        proof {
            reveal_strlit("legacy-c-");
        }
        let slug = slice_chars(&id, 9, id.len());
        return safe_legacy_room_id("c", &slug);
    }
    if starts_with_str(&id, "legacy-user-") {
        proof {
            reveal_strlit("legacy-user-");
        }
        let slug = slice_chars(&id, 12, id.len());
        return safe_legacy_room_id("user", &slug);
    }
    let url: Vec<char> = if starts_with_str(&id, "bsr://") {
        proof {
            reveal_strlit("bsr://");
        }
        let mut u = chars_of("https://");
        let rest = slice_chars(&id, 6, id.len());
        append_chars(&mut u, &rest);
        u
    } else if starts_with_str(&id, "youtube.com/") || starts_with_str(&id, "www.youtube.com/")
        || starts_with_str(&id, "m.youtube.com/") || starts_with_str(&id, "youtu.be/") {
        let mut u = chars_of("https://");
        append_chars(&mut u, &id);
        u
    } else {
        slice_chars(&id, 0, id.len())
    };
    proof {
        assert(id@.subrange(0, id@.len() as int) =~= id@);
    }
    if !starts_with_str(&url, "http://") && !starts_with_str(&url, "https://") {
        let mut h = vec!['@'];
        append_chars(&mut h, &url);
        assert(h@ =~= seq!['@'] + url@);
        return checked(is_valid_handle(&h), &h);
    }
    let url_s = string_of(&url);
    let parsed = match parse_url(url_s.as_str()) {
        Ok(p) => p,
        Err(_) => return Err(RecorderError::InvalidValue),
    };
    room_id_of_url(&parsed)
}

/// The page URL of a canonical room key.
pub open spec fn room_url_of(id: Seq<char>) -> Option<Seq<char>> {
    if video_id(id) {
        Some("https://www.youtube.com/watch?v="@ + id)
    } else if starts_with(id, "UC"@) {
        Some("https://www.youtube.com/channel/"@ + id + "/live"@)
    } else if starts_with(id, "legacy-c-"@) {
        Some("https://www.youtube.com/c/"@ + id.subrange(9, id.len() as int) + "/live"@)
    } else if starts_with(id, "legacy-user-"@) {
        Some("https://www.youtube.com/user/"@ + id.subrange(12, id.len() as int) + "/live"@)
    } else if starts_with(id, "@"@) {
        Some("https://www.youtube.com/"@ + id + "/live"@)
    } else {
        None
    }
}

/// Builds the page URL from a room key (normalized first).
pub fn youtube_room_url(identifier: &str) -> (r: Result<String, RecorderError>)
    ensures
        match canonical_room_id(identifier@) {
            None => r == Err::<String, RecorderError>(RecorderError::InvalidValue),
            Some(id) => room_result(r, room_url_of(id)),
        },
{
    let id_s = normalize_room_id(identifier)?;
    let id = chars_of(id_s.as_str());
    if is_video_id(&id) {
        let mut r = chars_of("https://www.youtube.com/watch?v=");
        append_chars(&mut r, &id);
        return Ok(string_of(&r));
    }
    if starts_with_str(&id, "UC") {
        let mut r = chars_of("https://www.youtube.com/channel/");
        append_chars(&mut r, &id);
        append_str(&mut r, "/live");
        return Ok(string_of(&r));
    }
    if starts_with_str(&id, "legacy-c-") {
        proof {
            reveal_strlit("legacy-c-");
        }
        let mut r = chars_of("https://www.youtube.com/c/");
        let slug = slice_chars(&id, 9, id.len());
        append_chars(&mut r, &slug);
        append_str(&mut r, "/live");
        return Ok(string_of(&r));
    }
    if starts_with_str(&id, "legacy-user-") {
        proof {
            reveal_strlit("legacy-user-");
        }
        let mut r = chars_of("https://www.youtube.com/user/");
        let slug = slice_chars(&id, 12, id.len());
        append_chars(&mut r, &slug);
        append_str(&mut r, "/live");
        return Ok(string_of(&r));
    }
    if starts_with_str(&id, "@") {
        let mut r = chars_of("https://www.youtube.com/");
        append_chars(&mut r, &id);
        append_str(&mut r, "/live");
        return Ok(string_of(&r));
    }
    Err(RecorderError::InvalidValue)
}


/// A character a room key may hold: a letter or digit, or `-`, `_`, `.`,
/// `%` or `@`.
pub open spec fn room_key_char(c: char) -> bool {
    is_ascii_alnum(c) || handle_alnum(c) || c == '-' || c == '_' || c == '.' || c == '%' || c == '@'
}

/// A legacy room key: `legacy-c-` or `legacy-user-` and a legacy slug.
pub open spec fn legacy_key(r: Seq<char>) -> bool {
    ||| (starts_with(r, "legacy-c-"@) && legacy_slug(r.subrange(9, r.len() as int)))
    ||| (starts_with(r, "legacy-user-"@) && legacy_slug(r.subrange(12, r.len() as int)))
}

/// The forms a room key takes.
pub open spec fn room_key_form(r: Seq<char>) -> bool {
    video_id(r) || channel_id(r) || valid_handle(r) || legacy_key(r)
}

proof fn legacy_room_id_form(kind: Seq<char>, slug: Seq<char>)
    requires
        kind == "c"@ || kind == "user"@,
        legacy_room_id(kind, slug) is Some,
    ensures
        legacy_key(legacy_room_id(kind, slug)->0),
{
    reveal_strlit("legacy-");
    reveal_strlit("c");
    reveal_strlit("user");
    reveal_strlit("legacy-c-");
    reveal_strlit("legacy-user-");
    let r = legacy_room_id(kind, slug)->0;
    if kind == "c"@ {
        assert(r.subrange(0, 9) =~= "legacy-c-"@);
        assert(r.subrange(9, r.len() as int) =~= slug);
    } else {
        assert(r.subrange(0, 12) =~= "legacy-user-"@);
        assert(r.subrange(12, r.len() as int) =~= slug);
    }
}

proof fn legacy_prefix_chars()
    ensures
        forall|j: int| 0 <= j < 9 ==> is_ascii_alnum(#[trigger] "legacy-c-"@[j]) || "legacy-c-"@[j] == '-',
        forall|j: int| 0 <= j < 12 ==> is_ascii_alnum(#[trigger] "legacy-user-"@[j]) || "legacy-user-"@[j] == '-',
        "legacy-user-"@.len() == 12 && "legacy-user-"@[7] == 'u',
        "legacy-c-"@.len() == 9 && "legacy-c-"@[7] == 'c',
{
    reveal_strlit("legacy-c-");
    reveal_strlit("legacy-user-");
    assert("legacy-c-"@ =~= seq!['l', 'e', 'g', 'a', 'c', 'y', '-', 'c', '-']);
    assert("legacy-user-"@ =~= seq!['l', 'e', 'g', 'a', 'c', 'y', '-', 'u', 's', 'e', 'r', '-']);
}

proof fn id_chars_trim(v: Seq<char>)
    requires
        v.len() > 0,
        forall|i: int| 0 <= i < v.len() ==> is_ascii_alnum(#[trigger] v[i]) || v[i] == '_' || v[i] == '-' || v[i] == '.' || v[i] == '%',
    ensures
        trim(v) == v,
{
    assert(is_ascii_alnum(v[0]) || v[0] == '_' || v[0] == '-' || v[0] == '.' || v[0] == '%');
    assert(is_ascii_alnum(v.last()) || v.last() == '_' || v.last() == '-' || v.last() == '.' || v.last() == '%');
    assert(crate::text::trim_start(v) == v);
    assert(crate::text::trim_end(v) == v);
}

/// What `normalize_room_id` accepts comes out as a room key: a video id, a
/// channel id, a handle or a legacy key, made of letters, digits and `-`,
/// `_`, `.`, `%` and `@` only (so never a URL, a path or white space); and it
/// normalizes to itself again.
pub proof fn normalized_room_id_is_a_room_key(raw: Seq<char>)
    requires
        canonical_room_id(raw) is Some,
    ensures
        room_key_form(canonical_room_id(raw)->0),
        canonical_room_id(raw)->0.len() > 0,
        forall|i: int|
            0 <= i < canonical_room_id(raw)->0.len() ==> room_key_char(#[trigger] canonical_room_id(raw)->0[i]),
        forall|i: int|
            0 <= i < canonical_room_id(raw)->0.len() ==> {
                let c = #[trigger] canonical_room_id(raw)->0[i];
                &&& !crate::text::is_white_space(c)
                &&& c != '/' && c != '?' && c != '#' && c != ':'
            },
        canonical_room_id(canonical_room_id(raw)->0) == canonical_room_id(raw),
{
    reveal_strlit("legacy-c-");
    reveal_strlit("legacy-user-");
    reveal_strlit("c");
    reveal_strlit("user");
    legacy_prefix_chars();
    let id = trim(raw);
    let r = canonical_room_id(raw)->0;
    if video_id(id) || channel_id(id) || valid_handle(id) {
    } else if starts_with(id, "legacy-c-"@) {
        legacy_room_id_form("c"@, id.subrange(9, id.len() as int));
    } else if starts_with(id, "legacy-user-"@) {
        legacy_room_id_form("user"@, id.subrange(12, id.len() as int));
    } else {
        let url = if starts_with(id, "bsr://"@) {
            "https://"@ + id.subrange(6, id.len() as int)
        } else if bare_youtube_prefix(id) {
            "https://"@ + id
        } else {
            id
        };
        if starts_with(url, "http://"@) || starts_with(url, "https://"@) {
            let u = parsed_url(url)->Ok_0;
            let host = lower(or_empty(u.host));
            let v = match u.query {
                Some(q) => first_v(form_decoded(q)),
                None => None,
            };
            if v is None {
                let segs = nonempty_items(
                    match u.path_segments {
                        Some(s) => s,
                        None => Seq::empty(),
                    },
                );
                if host != "youtu.be"@ && segs.len() >= 2 && (segs[0] == "c"@ || segs[0] == "user"@) {
                    legacy_room_id_form(segs[0], segs[1]);
                }
            }
        }
    }
    assert(room_key_form(r));
    if legacy_key(r) {
        reveal_strlit("legacy-c-");
        if starts_with(r, "legacy-c-"@) {
            let slug = r.subrange(9, r.len() as int);
            assert forall|i: int| 0 <= i < r.len() implies room_key_char(#[trigger] r[i]) by {
                if i < 9 {
                    assert(r.subrange(0, 9)[i] == r[i]);
                } else {
                    assert(slug[i - 9] == r[i]);
                }
            }
        } else {
            let slug = r.subrange(12, r.len() as int);
            assert forall|i: int| 0 <= i < r.len() implies room_key_char(#[trigger] r[i]) by {
                if i < 12 {
                    assert(r.subrange(0, 12)[i] == r[i]);
                    assert(r[i] == "legacy-user-"@[i]);
                } else {
                    assert(slug[i - 12] == r[i]);
                }
            }
        }
    }
    if !valid_handle(r) {
        if video_id(r) || channel_id(r) {
            id_chars_trim(r);
        } else {
            assert forall|i: int| 0 <= i < r.len() implies is_ascii_alnum(#[trigger] r[i]) || r[i] == '_' || r[i]
                == '-' || r[i] == '.' || r[i] == '%' by {
                if starts_with(r, "legacy-c-"@) {
                    if i < 9 {
                        assert(r.subrange(0, 9)[i] == r[i]);
                    } else {
                        assert(r.subrange(9, r.len() as int)[i - 9] == r[i]);
                    }
                } else {
                    if i < 12 {
                        assert(r.subrange(0, 12)[i] == r[i]);
                        assert(r[i] == "legacy-user-"@[i]);
                    } else {
                        assert(r.subrange(12, r.len() as int)[i - 12] == r[i]);
                    }
                }
            }
            id_chars_trim(r);
            if starts_with(r, "legacy-c-"@) {
                reveal_strlit("legacy-");
                assert("legacy-"@ + "c"@ + seq!['-'] =~= "legacy-c-"@);
                assert(r.subrange(0, 9) =~= "legacy-c-"@);
                assert(r.subrange(0, 9) + r.subrange(9, r.len() as int) =~= r);
                assert(("legacy-"@ + "c"@ + seq!['-'] + r.subrange(9, r.len() as int)) =~= r);
            } else {
                assert(!starts_with(r, "legacy-c-"@)) by {
                    assert(r.subrange(0, 12)[7] == 'u');
                    assert(r[7] == 'u');
                    if starts_with(r, "legacy-c-"@) {
                        assert(r.subrange(0, 9)[7] == r[7]);
                    }
                }
                reveal_strlit("legacy-");
                assert("legacy-"@ + "user"@ + seq!['-'] =~= "legacy-user-"@);
                assert(r.subrange(0, 12) =~= "legacy-user-"@);
                assert(r.subrange(0, 12) + r.subrange(12, r.len() as int) =~= r);
                assert(("legacy-"@ + "user"@ + seq!['-'] + r.subrange(12, r.len() as int)) =~= r);
            }
        }
    }
}

/// The parts of the page URL of a room key (`room_url_of`) as it is
/// written: `https`, host `www.youtube.com`, the path and its segments, and
/// for a video the query `v=<id>`. A URL parser splits the page URL of an
/// ASCII key this way; it percent-encodes other characters of a path.
pub open spec fn room_page_parts(id: Seq<char>) -> UrlParts {
    let host = Some("www.youtube.com"@);
    if video_id(id) {
        UrlParts {
            scheme: "https"@,
            host,
            path: "/watch"@,
            query: Some("v="@ + id),
            path_segments: Some(seq!["watch"@]),
        }
    } else if starts_with(id, "UC"@) {
        UrlParts {
            scheme: "https"@,
            host,
            path: "/channel/"@ + id + "/live"@,
            query: None,
            path_segments: Some(seq!["channel"@, id, "live"@]),
        }
    } else if starts_with(id, "legacy-c-"@) {
        let slug = id.subrange(9, id.len() as int);
        UrlParts {
            scheme: "https"@,
            host,
            path: "/c/"@ + slug + "/live"@,
            query: None,
            path_segments: Some(seq!["c"@, slug, "live"@]),
        }
    } else if starts_with(id, "legacy-user-"@) {
        let slug = id.subrange(12, id.len() as int);
        UrlParts {
            scheme: "https"@,
            host,
            path: "/user/"@ + slug + "/live"@,
            query: None,
            path_segments: Some(seq!["user"@, slug, "live"@]),
        }
    } else {
        UrlParts {
            scheme: "https"@,
            host,
            path: "/"@ + id + "/live"@,
            query: None,
            path_segments: Some(seq![id, "live"@]),
        }
    }
}

proof fn nonempty_segments_kept(segs: Seq<Seq<char>>)
    requires
        forall|i: int| 0 <= i < segs.len() ==> #[trigger] segs[i].len() > 0,
    ensures
        nonempty_items(segs) == segs,
    decreases segs.len(),
{
    if segs.len() > 0 {
        nonempty_segments_kept(segs.drop_first());
        assert(seq![segs[0]] + segs.drop_first() =~= segs);
    }
}

/// A room key's page URL names the room again: read back from the parts of
/// `room_url_of(id)`, the URL gives `id` (for a video, provided its query
/// `v=<id>` decodes to the pair `v`, `id`).
pub proof fn room_page_names_its_room(id: Seq<char>)
    requires
        canonical_room_id(id) == Some(id),
    ensures
        !video_id(id) ==> room_of_url(room_page_parts(id)) == Some(id),
        video_id(id) && first_v(form_decoded("v="@ + id)) == Some(id) ==> room_of_url(room_page_parts(id))
            == Some(id),
{
    normalized_room_id_is_a_room_key(id);
    reveal_strlit("www.youtube.com");
    reveal_strlit(".youtube.com");
    reveal_strlit("watch");
    reveal_strlit("channel");
    reveal_strlit("live");
    reveal_strlit("c");
    reveal_strlit("user");
    reveal_strlit("UC");
    reveal_strlit("legacy-c-");
    reveal_strlit("legacy-user-");
    reveal_strlit("youtu.be");
    reveal_strlit("shorts");
    reveal_strlit("embed");
    reveal_strlit("v");
    reveal_strlit("@");
    let h = "www.youtube.com"@;
    assert(lower(h) =~= h);
    assert(h.subrange(3, 15) =~= ".youtube.com"@);
    assert(youtube_host(lower(or_empty(Some(h)))));
    let parts = room_page_parts(id);
    assert(h != "youtu.be"@);
    assert(lower(or_empty(parts.host)) == h);
    if video_id(id) {
    } else {
        let segs = parts.path_segments->0;
        if starts_with(id, "UC"@) {
            assert(!valid_handle(id)) by {
                assert(id.subrange(0, 2)[0] == id[0]);
            }
            assert(!legacy_key(id)) by {
                assert(id.subrange(0, 2)[0] == id[0]);
                assert("UC"@[0] == 'U');
                assert(id[0] == 'U');
                assert("legacy-c-"@[0] == 'l');
                assert("legacy-user-"@[0] == 'l');
                if starts_with(id, "legacy-c-"@) {
                    assert(id.subrange(0, 9)[0] == id[0]);
                }
                if starts_with(id, "legacy-user-"@) {
                    assert(id.subrange(0, 12)[0] == id[0]);
                }
            }
            assert(channel_id(id));
            assert("channel"@.len() > 0 && "live"@.len() > 0);
            assert(segs =~= seq!["channel"@, id, "live"@]);
            nonempty_segments_kept(segs);
            assert(room_from_path(h, segs) == Some(id));
        } else if starts_with(id, "legacy-c-"@) {
            let slug = id.subrange(9, id.len() as int);
            assert(!valid_handle(id)) by {
                assert(id.subrange(0, 9)[0] == id[0]);
            }
            assert(!channel_id(id)) by {
                assert(id.subrange(0, 9)[0] == id[0]);
            }
            assert(legacy_slug(slug)) by {
                if !starts_with(id, "legacy-c-"@) || !legacy_slug(slug) {
                    assert(starts_with(id, "legacy-user-"@));
                    assert(id.subrange(0, 12)[7] == id[7]);
                    assert(id.subrange(0, 9)[7] == id[7]);
                }
            }
            assert("legacy-"@ + "c"@ + seq!['-'] + slug =~= id) by {
                reveal_strlit("legacy-");
                assert(id.subrange(0, 9) + slug =~= id);
            }
            assert(segs =~= seq!["c"@, slug, "live"@]);
            nonempty_segments_kept(segs);
            assert("c"@ != "v"@) by {
                assert("c"@[0] != "v"@[0]);
            }
            assert(legacy_room_id("c"@, slug) == Some(id));
            assert(room_from_path(h, segs) == Some(id));
        } else if starts_with(id, "legacy-user-"@) {
            let slug = id.subrange(12, id.len() as int);
            assert(!valid_handle(id)) by {
                assert(id.subrange(0, 12)[0] == id[0]);
            }
            assert(!channel_id(id)) by {
                assert(id.subrange(0, 12)[0] == id[0]);
            }
            assert(legacy_slug(slug));
            assert("legacy-"@ + "user"@ + seq!['-'] + slug =~= id) by {
                reveal_strlit("legacy-");
                assert(id.subrange(0, 12) + slug =~= id);
            }
            assert(segs =~= seq!["user"@, slug, "live"@]);
            nonempty_segments_kept(segs);
            assert(room_from_path(h, segs) == Some(id));
        } else {
            assert(valid_handle(id));
            assert(starts_with(id, "@"@)) by {
                assert("@"@ =~= seq!['@']);
                assert(id.subrange(0, 1) =~= seq![id[0]]);
            }
            assert(segs =~= seq![id, "live"@]);
            nonempty_segments_kept(segs);
            assert(room_from_path(h, segs) == Some(id));
        }
    }
}

proof fn page_url_shape(id: Seq<char>)
    requires
        room_key_form(id),
        id.len() > 0,
    ensures
        room_url_of(id) is Some,
        room_url_of(id)->0.len() > 8,
        room_url_of(id)->0.subrange(0, 8) == "https://"@,
        !crate::text::is_white_space(room_url_of(id)->0.last()),
{
    reveal_strlit("https://www.youtube.com/watch?v=");
    reveal_strlit("https://www.youtube.com/channel/");
    reveal_strlit("https://www.youtube.com/c/");
    reveal_strlit("https://www.youtube.com/user/");
    reveal_strlit("https://www.youtube.com/");
    reveal_strlit("/live");
    reveal_strlit("https://");
    reveal_strlit("@");
    reveal_strlit("UC");
    reveal_strlit("legacy-c-");
    reveal_strlit("legacy-user-");
    if valid_handle(id) {
        assert("@"@ =~= seq!['@']);
        assert(id.subrange(0, 1) =~= seq![id[0]]);
    }
    let u = room_url_of(id)->0;
    if video_id(id) {
        assert(u.subrange(0, 8) =~= "https://www.youtube.com/watch?v="@.subrange(0, 8));
        assert(u.last() == id.last());
        assert(is_ascii_alnum(id[id.len() - 1]) || id[id.len() - 1] == '_' || id[id.len() - 1] == '-');
    } else if starts_with(id, "UC"@) {
        assert(u.subrange(0, 8) =~= "https://www.youtube.com/channel/"@.subrange(0, 8));
        assert(u.last() == 'e');
    } else if starts_with(id, "legacy-c-"@) {
        assert(u.subrange(0, 8) =~= "https://www.youtube.com/c/"@.subrange(0, 8));
        assert(u.last() == 'e');
    } else if starts_with(id, "legacy-user-"@) {
        assert(u.subrange(0, 8) =~= "https://www.youtube.com/user/"@.subrange(0, 8));
        assert(u.last() == 'e');
    } else {
        assert(u.subrange(0, 8) =~= "https://www.youtube.com/"@.subrange(0, 8));
        assert(u.last() == 'e');
    }
}

proof fn https_url_is_no_key(u: Seq<char>)
    requires
        u.len() > 8,
        u.subrange(0, 8) == "https://"@,
        !crate::text::is_white_space(u.last()),
    ensures
        trim(u) == u,
        !video_id(u),
        !channel_id(u),
        !valid_handle(u),
        !starts_with(u, "legacy-c-"@),
        !starts_with(u, "legacy-user-"@),
        !starts_with(u, "bsr://"@),
        !bare_youtube_prefix(u),
        starts_with(u, "https://"@),
{
    reveal_strlit("https://");
    reveal_strlit("UC");
    reveal_strlit("legacy-c-");
    reveal_strlit("legacy-user-");
    reveal_strlit("bsr://");
    reveal_strlit("youtube.com/");
    reveal_strlit("www.youtube.com/");
    reveal_strlit("m.youtube.com/");
    reveal_strlit("youtu.be/");
    assert(u[0] == 'h' && u[5] == ':') by {
        assert(u.subrange(0, 8)[0] == u[0]);
        assert(u.subrange(0, 8)[5] == u[5]);
    }
    assert(crate::text::trim_start(u) == u);
    assert(crate::text::trim_end(u) == u);
    if u.len() == 11 {
        assert(!is_ascii_alnum(u[5]));
    }
    assert(!channel_id(u)) by {
        if u.len() >= 2 {
            assert(u.subrange(0, 2)[0] == u[0]);
        }
    }
    assert(!starts_with(u, "legacy-c-"@)) by {
        if u.len() >= 9 {
            assert(u.subrange(0, 9)[0] == u[0]);
        }
    }
    assert(!starts_with(u, "legacy-user-"@)) by {
        if u.len() >= 12 {
            assert(u.subrange(0, 12)[0] == u[0]);
        }
    }
    assert(!starts_with(u, "bsr://"@)) by {
        assert(u.subrange(0, 6)[0] == u[0]);
    }
    assert(!bare_youtube_prefix(u)) by {
        if u.len() >= 9 {
            assert(u.subrange(0, 9)[0] == u[0]);
        }
        if u.len() >= 12 {
            assert(u.subrange(0, 12)[0] == u[0]);
        }
        if u.len() >= 14 {
            assert(u.subrange(0, 14)[0] == u[0]);
        }
        if u.len() >= 16 {
            assert(u.subrange(0, 16)[0] == u[0]);
        }
    }
}

/// A room key's page URL normalizes back to the key: when the URL parser
/// splits `room_url_of(id)` into the parts `room_page_parts` lists (and, for
/// a video, its query `v=<id>` decodes to the pair `v`, `id`), normalizing
/// the page URL gives `id`.
pub proof fn room_url_normalizes_back(id: Seq<char>)
    requires
        canonical_room_id(id) == Some(id),
    ensures
        room_url_of(id) is Some,
        parsed_url(room_url_of(id)->0) == Ok::<UrlParts, Seq<char>>(room_page_parts(id)) && (video_id(id)
            ==> first_v(form_decoded("v="@ + id)) == Some(id)) ==> canonical_room_id(room_url_of(id)->0)
            == Some(id),
{
    normalized_room_id_is_a_room_key(id);
    page_url_shape(id);
    let u = room_url_of(id)->0;
    https_url_is_no_key(u);
    if parsed_url(u) == Ok::<UrlParts, Seq<char>>(room_page_parts(id)) && (video_id(id) ==> first_v(
        form_decoded("v="@ + id),
    ) == Some(id)) {
        room_page_names_its_room(id);
        assert(room_of_url(room_page_parts(id)) == Some(id));
    }
}

} // verus!
