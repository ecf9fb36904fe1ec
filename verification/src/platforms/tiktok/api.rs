//! TikTok: the text-level decisions around its pages and playlists.
use vstd::prelude::*;

use crate::outside::{capture, join_url, joined_url, json_string_literal, opt_view, parse_json_string, regex_capture};
use crate::platforms::kuaishou::api::{image_url, normalize_image_url as normalize_kuaishou_image_url};
use crate::text::{
    append_str, chars_eq, chars_of, contains, contains_str, find_char, find_char_exec, replace,
    replace_exec, split_exec, split_on, starts_with, starts_with_str, string_of, trim, trim_exec,
    vecs_view,
};
use vstd::string::StringExecFns;

verus! {

/// A live room as read from the page state.
#[derive(Debug, Clone)]
pub struct RoomInfo {
    pub live_status: bool,
    pub room_title: String,
    pub room_cover_url: String,
    pub user_id: String,
    pub user_name: String,
    pub user_avatar: String,
}

/// One quality level's pull URLs.
#[derive(Debug, Clone)]
pub struct StreamInfo {
    pub level: String,
    pub hls_url: Option<String>,
    pub rtmp_url: Option<String>,
}

/// `url` with `codec=<codec>` added to its query, unless the codec is empty
/// or the URL already names one.
pub open spec fn with_codec(url: Seq<char>, codec: Seq<char>) -> Seq<char> {
    if codec.len() == 0 || contains(url, "codec="@) {
        url
    } else {
        url + (if find_char(url, '?') is Some {
            seq!['&']
        } else {
            seq!['?']
        }) + "codec="@ + codec
    }
}

pub fn append_codec(url: &str, codec: &str) -> (r: String)
    ensures
        r@ == with_codec(url@, codec@),
{
    let u = chars_of(url);
    if codec.is_empty() || contains_str(&u, "codec=") {
        return String::from_str(url);
    }
    let mut v = u;
    if find_char_exec(&v, '?').is_some() {
        v.push('&');
    } else {
        v.push('?');
    }
    append_str(&mut v, "codec=");
    append_str(&mut v, codec);
    string_of(&v)
}

/// The first line of a playlist that is neither blank nor a `#` tag or
/// comment, trimmed.
pub open spec fn first_media_line(lines: Seq<Seq<char>>) -> Option<Seq<char>>
    decreases lines.len(),
{
    if lines.len() == 0 {
        None
    } else {
        let t = trim(lines[0]);
        if t.len() == 0 || starts_with(t, seq!['#']) {
            first_media_line(lines.drop_first())
        } else {
            Some(t)
        }
    }
}

pub fn extract_first_media_uri(m3u8_text: &str) -> (r: Option<String>)
    ensures
        opt_view(r) == first_media_line(split_on(m3u8_text@, '\n')),
{
    let lines = split_exec(&chars_of(m3u8_text), '\n');
    let ghost lv = vecs_view(lines@);
    let mut i: usize = 0;
    assert(lv.skip(0) =~= lv);
    while i < lines.len()
        invariant
            i <= lines.len(),
            lv == vecs_view(lines@),
            lv == split_on(m3u8_text@, '\n'),
            first_media_line(lv) == first_media_line(lv.skip(i as int)),
        decreases lines.len() - i,
    {
        assert(lv.skip(i as int)[0] == lines@[i as int]@);
        assert(lv.skip(i as int).drop_first() =~= lv.skip(i + 1));
        let t = trim_exec(&lines[i]);
        if t.len() > 0 && t[0] != '#' {
            assert(t@.subrange(0, 1)[0] == t@[0]);
            assert(t@.subrange(0, 1) != seq!['#']);
            return Some(string_of(&t));
        }
        if t.len() > 0 {
            assert(t@.subrange(0, 1) =~= seq!['#']);
        }
        i += 1;
    }
    assert(lv.skip(i as int) =~= Seq::<Seq<char>>::empty());
    None
}

/// A playlist entry's absolute URL: absolute HTTP(S) URIs as they are,
/// others joined to the playlist's URL (`None` when that fails).
pub open spec fn resolved_uri(base: Seq<char>, uri: Seq<char>) -> Option<Seq<char>> {
    if starts_with(uri, "http://"@) || starts_with(uri, "https://"@) {
        Some(uri)
    } else {
        joined_url(base, uri)
    }
}

pub fn resolve_uri(base: &str, uri: &str) -> (r: Option<String>)
    ensures
        opt_view(r) == resolved_uri(base@, uri@),
{
    let u = chars_of(uri);
    if starts_with_str(&u, "http://") || starts_with_str(&u, "https://") {
        return Some(String::from_str(uri));
    }
    join_url(base, uri)
}

/// An image URL found in the page (see `image_url`).
pub fn normalize_image_url(url: &str) -> (r: String)
    ensures
        r@ == image_url(url@),
{
    normalize_kuaishou_image_url(url)
}

/// A JSON-escaped string from the page: what the quoted text denotes as a
/// JSON string, or else the text with `\u002F`, `\/`, `\u0026` and
/// `\u003D` unescaped, when that changes anything.
pub open spec fn page_unescaped(raw: Seq<char>) -> Option<Seq<char>> {
    match json_string_literal(seq!['"'] + raw + seq!['"']) {
        Some(s) => Some(s),
        None => {
            let d = replace(
                replace(
                    replace(replace(raw, "\\u002F"@, "/"@), "\\/"@, "/"@),
                    "\\u0026"@,
                    "&"@,
                ),
                "\\u003D"@,
                "="@,
            );
            if d == raw {
                None
            } else {
                Some(d)
            }
        },
    }
}

pub fn decode_json_string(raw: &str) -> (r: Option<String>)
    ensures
        opt_view(r) == page_unescaped(raw@),
{
    let mut quoted: Vec<char> = Vec::new();
    quoted.push('"');
    append_str(&mut quoted, raw);
    quoted.push('"');
    assert(quoted@ =~= seq!['"'] + raw@ + seq!['"']);
    if let Some(s) = parse_json_string(string_of(&quoted).as_str()) {
        return Some(s);
    }
    let rv = chars_of(raw);
    let a = replace_exec(&rv, &chars_of("\\u002F"), &chars_of("/"));
    let b = replace_exec(&a, &chars_of("\\/"), &chars_of("/"));
    let c = replace_exec(&b, &chars_of("\\u0026"), &chars_of("&"));
    let d = replace_exec(&c, &chars_of("\\u003D"), &chars_of("="));
    if chars_eq(&d, &rv) {
        None
    } else {
        Some(string_of(&d))
    }
}

/// The pattern of an HLS playlist URL written anywhere in a page, with or
/// without escaped slashes.
pub const M3U8_URL_PATTERN: &'static str = "(https?:\\\\?/\\\\?/[^\"'\\\\s]+\\\\.m3u8[^\"'\\\\s]*)";

/// The first playlist URL written in a page, unescaped (or as written when
/// it does not unescape), when it still names an `.m3u8` playlist.
pub open spec fn page_m3u8_url(html: Seq<char>) -> Option<Seq<char>> {
    match regex_capture(M3U8_URL_PATTERN@, html, 1) {
        Some(raw) => {
            let d = match page_unescaped(raw) {
                Some(d) => d,
                None => raw,
            };
            if contains(d, ".m3u8"@) {
                Some(d)
            } else {
                None
            }
        },
        None => None,
    }
}

pub fn extract_m3u8_from_html(html_str: &str) -> (r: Option<String>)
    ensures
        opt_view(r) == page_m3u8_url(html_str@),
{
    let raw = match capture(M3U8_URL_PATTERN, html_str, 1) {
        Some(raw) => raw,
        None => {
            return None;
        },
    };
    let decoded = match decode_json_string(raw.as_str()) {
        Some(d) => d,
        None => raw,
    };
    if contains_str(&chars_of(decoded.as_str()), ".m3u8") {
        Some(decoded)
    } else {
        None
    }
}

} // verus!
