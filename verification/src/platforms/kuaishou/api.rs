//! Kuaishou: the text-level decisions around its web pages and APIs.
use vstd::prelude::*;

use crate::errors::RecorderError;
use crate::json::{member, str_member, u64_member, Json};
use crate::platforms::kuaishou::response::{LiveStreamResponse, PlayUrls, Representation, H264};
use crate::outside::{capture, json_string_literal, opt_view, parse_json_string, regex_capture, strings_view, json_parsed, parse_json};
use crate::text::{
    after_last_char, after_last_char_exec, append_chars, append_str, before_char,
    before_char_exec, chars_of, contains, contains_str, find, find_chars, is_ascii_digit, join_exec,
    join_with, lower, parse_i64, parse_i64_exec, replace, replace_exec, slice_chars,
    split_exec, split_on, starts_with, starts_with_str, string_of, to_lower, trim, trim_end_char,
    trim_end_char_exec, trim_exec, trim_str, trimmed_nonempty, trimmed_nonempty_exec, vecs_view,
    ascii_digit, chars_eq,
};
use vstd::string::StringExecFns;
use vstd::utf8::encode_utf8;
use crate::media::stream_info::or_empty;
use crate::platforms::polls::{opt_user_view, user_view};
use crate::platforms::tiktok::state::{get_string_field, string_field};

verus! {

/// A login QR code.
#[derive(Debug, Clone)]
pub struct QrInfo {
    pub qr_login_token: String,
    pub qr_login_signature: String,
    pub image_data: String,
}

/// A live room as read from the web page or API.
#[derive(Debug, Clone)]
pub struct RoomInfo {
    pub live_status: bool,
    pub room_title: String,
    pub room_cover_url: String,
    pub user_id: String,
    pub user_name: String,
    pub user_avatar: String,
}

/// One pull URL and its quality label.
#[derive(Debug, Clone)]
pub struct StreamInfo {
    pub url: String,
    pub quality: String,
    pub bitrate: Option<i64>,
}

/// The state of a QR login.
#[derive(Debug, Clone)]
pub struct QrStatus {
    pub code: u8,
    pub cookies: String,
}

/// "Operating too fast".
pub const TOO_FAST: &'static str = "\u{64cd}\u{4f5c}\u{592a}\u{5feb}";

/// "Visits too frequent".
pub const TOO_FREQUENT: &'static str = "\u{8bbf}\u{95ee}\u{8fc7}\u{4e8e}\u{9891}\u{7e41}";

/// "Frequent visits".
pub const FREQUENT: &'static str = "\u{8bbf}\u{95ee}\u{9891}\u{7e41}";

/// "Please try again later".
pub const TRY_LATER: &'static str = "\u{8bf7}\u{7a0d}\u{540e}\u{518d}\u{8bd5}";

/// Whether an API message says that requests come too often: after
/// trimming it is non-empty and contains one of the four rate-limit phrases.
pub open spec fn rate_limit_message(message: Seq<char>) -> bool {
    let t = trim(message);
    t.len() > 0 && (contains(t, TOO_FAST@) || contains(t, TOO_FREQUENT@) || contains(t, FREQUENT@)
        || contains(t, TRY_LATER@))
}

pub fn is_rate_limit_message(message: &str) -> (r: bool)
    ensures
        r == rate_limit_message(message@),
{
    let t = trim_str(message);
    t.len() > 0 && (contains_str(&t, TOO_FAST) || contains_str(&t, TOO_FREQUENT) || contains_str(
        &t,
        FREQUENT,
    ) || contains_str(&t, TRY_LATER))
}

/// Whether an error is an API error whose message is a rate-limit message.
pub fn is_rate_limited_error(error: &RecorderError) -> (r: bool)
    ensures
        r == (match error {
            RecorderError::ApiError { error } => rate_limit_message(error@),
            _ => false,
        }),
{
    match error {
        RecorderError::ApiError { error } => is_rate_limit_message(error.as_str()),
        _ => false,
    }
}

/// A JSON-escaped string as it appears between quotes in a page: what the
/// quoted text denotes as a JSON string, or else the text with the escapes
/// `\u002F`, `\u0026` and `\u003D` replaced, when that changes anything.
pub open spec fn json_unescaped(raw: Seq<char>) -> Option<Seq<char>> {
    match json_string_literal(seq!['"'] + raw + seq!['"']) {
        Some(s) => Some(s),
        None => {
            let d = replace(
                replace(replace(raw, "\\u002F"@, "/"@), "\\u0026"@, "&"@),
                "\\u003D"@,
                "="@,
            );
            if d == raw {
                None
            } else {
                Some(d)
            }
        },
    }
}

pub fn decode_json_string(raw: &str) -> (r: Option<String>)
    ensures
        opt_view(r) == json_unescaped(raw@),
{
    let mut quoted: Vec<char> = Vec::new();
    quoted.push('"');
    append_str(&mut quoted, raw);
    quoted.push('"');
    assert(quoted@ =~= seq!['"'] + raw@ + seq!['"']);
    if let Some(s) = parse_json_string(string_of(&quoted).as_str()) {
        return Some(s);
    }
    let rv = chars_of(raw);
    let a = replace_exec(&rv, &chars_of("\\u002F"), &chars_of("/"));
    let b = replace_exec(&a, &chars_of("\\u0026"), &chars_of("&"));
    let d = replace_exec(&b, &chars_of("\\u003D"), &chars_of("="));
    if chars_eq(&d, &rv) {
        None
    } else {
        Some(string_of(&d))
    }
}

/// The pattern of the HLS URL embedded in a page.
pub const HLS_PLAY_URL_PATTERN: &'static str = "\"hlsPlayUrl\"\\s*:\\s*\"([^\"]+)\"";

/// The HLS URL embedded in a page: the first `"hlsPlayUrl": "..."` value,
/// unescaped, when it names an `.m3u8` playlist.
pub open spec fn page_hls_play_url(html: Seq<char>) -> Option<Seq<char>> {
    match regex_capture(HLS_PLAY_URL_PATTERN@, html, 1) {
        Some(raw) => match json_unescaped(raw) {
            Some(d) => if contains(d, ".m3u8"@) {
                Some(d)
            } else {
                None
            },
            None => None,
        },
        None => None,
    }
}

pub fn extract_hls_play_url(html_str: &str) -> (r: Option<String>)
    ensures
        opt_view(r) == page_hls_play_url(html_str@),
{
    let raw = match capture(HLS_PLAY_URL_PATTERN, html_str, 1) {
        Some(raw) => raw,
        None => {
            return None;
        },
    };
    let decoded = match decode_json_string(raw.as_str()) {
        Some(d) => d,
        None => {
            return None;
        },
    };
    if contains_str(&chars_of(decoded.as_str()), ".m3u8") {
        Some(decoded)
    } else {
        None
    }
}

/// The cookie header made of the lines of `cookies`: each line trimmed,
/// empty lines dropped, the rest joined with `"; "`.
pub open spec fn cookie_header(cookies: Seq<char>) -> Seq<char> {
    join_with(trimmed_nonempty(split_on(cookies, '\n')), "; "@)
}

pub fn normalize_cookie_header(cookies: &str) -> (r: String)
    ensures
        r@ == cookie_header(cookies@),
{
    let lines = split_exec(&chars_of(cookies), '\n');
    let kept = trimmed_nonempty_exec(&lines);
    string_of(&join_exec(&kept, "; "))
}

/// The user id in a profile URL: the URL is cut at `#` and `?` and its
/// trailing `/` removed; then the part after the first `/u/`, else after the
/// first `/profile/`, else the last path piece of a `kuaishou.com` URL, else
/// nothing.
pub open spec fn url_user_id(url: Seq<char>) -> Seq<char> {
    let t = trim_end_char(before_char(before_char(url, '#'), '?'), '/');
    match find(t, "/u/"@) {
        Some(k) => t.skip(k + 3),
        None => match find(t, "/profile/"@) {
            Some(k) => t.skip(k + 9),
            None => if contains(t, "kuaishou.com"@) {
                after_last_char(t, '/')
            } else {
                Seq::empty()
            },
        },
    }
}

pub fn extract_user_id_from_url(url: &str) -> (r: String)
    ensures
        r@ == url_user_id(url@),
{
    let u = chars_of(url);
    let a = before_char_exec(&u, '#');
    let b = before_char_exec(&a, '?');
    let t = trim_end_char_exec(&b, '/');
    proof {
        reveal_strlit("/u/");
        reveal_strlit("/profile/");
    }
    if let Some(k) = find_chars(&t, &chars_of("/u/")) {
        let r = slice_chars(&t, k + 3, t.len());
        assert(r@ =~= t@.skip(k + 3));
        return string_of(&r);
    }
    if let Some(k) = find_chars(&t, &chars_of("/profile/")) {
        let r = slice_chars(&t, k + 9, t.len());
        assert(r@ =~= t@.skip(k + 9));
        return string_of(&r);
    }
    if contains_str(&t, "kuaishou.com") {
        return string_of(&after_last_char_exec(&t, '/'));
    }
    String::new()
}

/// `urls` with `u` added at the end unless it is already there.
pub open spec fn push_new(urls: Seq<Seq<char>>, u: Seq<char>) -> Seq<Seq<char>> {
    if urls.contains(u) {
        urls
    } else {
        urls.push(u)
    }
}

fn push_unique(urls: &mut Vec<String>, u: String)
    ensures
        strings_view(final(urls)@) == push_new(strings_view(old(urls)@), u@),
{
    let ghost v = strings_view(urls@);
    let mut i: usize = 0;
    while i < urls.len()
        invariant
            i <= urls.len(),
            v == strings_view(urls@),
            urls@ == old(urls)@,
            forall|j: int| 0 <= j < i ==> v[j] != u@,
        decreases urls.len() - i,
    {
        if urls[i] == u {
            assert(v[i as int] == u@);
            assert(v.contains(u@));
            return;
        }
        i += 1;
    }
    assert(!v.contains(u@));
    urls.push(u);
    assert(strings_view(urls@) =~= v.push(u@));
}

/// The pages to try for a room: the URL itself (when non-empty), its twin
/// on the other Kuaishou host, and the three profile URLs of its user id,
/// without repeats.
pub open spec fn web_candidate_urls(url: Seq<char>) -> Seq<Seq<char>> {
    let a: Seq<Seq<char>> = if url.len() > 0 {
        seq![url]
    } else {
        Seq::empty()
    };
    let b = if contains(url, "live.kuaishou.com"@) {
        push_new(a, replace(url, "live.kuaishou.com"@, "www.kuaishou.com"@))
    } else if contains(url, "www.kuaishou.com"@) {
        push_new(a, replace(url, "www.kuaishou.com"@, "live.kuaishou.com"@))
    } else {
        a
    };
    let eid = url_user_id(url);
    if eid.len() > 0 {
        push_new(
            push_new(
                push_new(b, "https://live.kuaishou.com/u/"@ + eid),
                "https://www.kuaishou.com/u/"@ + eid,
            ),
            "https://www.kuaishou.com/live/u/"@ + eid,
        )
    } else {
        b
    }
}

/// No item of `s` occurs twice.
pub open spec fn no_repeats(s: Seq<Seq<char>>) -> bool {
    forall|i: int, j: int| 0 <= i < j < s.len() ==> s[i] != s[j]
}

proof fn push_new_keeps_no_repeats(s: Seq<Seq<char>>, u: Seq<char>)
    requires
        no_repeats(s),
    ensures
        no_repeats(push_new(s, u)),
{
    if !s.contains(u) {
        let t = s.push(u);
        assert forall|i: int, j: int| 0 <= i < j < t.len() implies t[i] != t[j] by {
            if j == s.len() {
                assert(t[i] == s[i]);
                if s[i] == u {
                    assert(s.contains(u));
                }
            }
        }
    }
}

/// The candidate pages of a room never repeat a URL.
pub proof fn web_candidate_urls_no_repeats(url: Seq<char>)
    ensures
        no_repeats(web_candidate_urls(url)),
{
    let a: Seq<Seq<char>> = if url.len() > 0 {
        seq![url]
    } else {
        Seq::empty()
    };
    assert(no_repeats(a));
    push_new_keeps_no_repeats(a, replace(url, "live.kuaishou.com"@, "www.kuaishou.com"@));
    push_new_keeps_no_repeats(a, replace(url, "www.kuaishou.com"@, "live.kuaishou.com"@));
    let b = if contains(url, "live.kuaishou.com"@) {
        push_new(a, replace(url, "live.kuaishou.com"@, "www.kuaishou.com"@))
    } else if contains(url, "www.kuaishou.com"@) {
        push_new(a, replace(url, "www.kuaishou.com"@, "live.kuaishou.com"@))
    } else {
        a
    };
    let eid = url_user_id(url);
    let c1 = push_new(b, "https://live.kuaishou.com/u/"@ + eid);
    let c2 = push_new(c1, "https://www.kuaishou.com/u/"@ + eid);
    push_new_keeps_no_repeats(b, "https://live.kuaishou.com/u/"@ + eid);
    push_new_keeps_no_repeats(c1, "https://www.kuaishou.com/u/"@ + eid);
    push_new_keeps_no_repeats(c2, "https://www.kuaishou.com/live/u/"@ + eid);
}

fn prefixed_id(prefix: &str, eid: &String) -> (r: String)
    ensures
        r@ == prefix@ + eid@,
{
    let mut r = String::from_str(prefix);
    r.append(eid.as_str());
    r
}

pub fn build_web_candidate_urls(url: &str) -> (r: Vec<String>)
    ensures
        strings_view(r@) == web_candidate_urls(url@),
{
    let mut urls: Vec<String> = Vec::new();
    let u = chars_of(url);
    if u.len() > 0 {
        urls.push(String::from_str(url));
        assert(strings_view(urls@) =~= seq![url@]);
    } else {
        assert(strings_view(urls@) =~= Seq::<Seq<char>>::empty());
    }
    if contains_str(&u, "live.kuaishou.com") {
        let w = replace_exec(&u, &chars_of("live.kuaishou.com"), &chars_of("www.kuaishou.com"));
        push_unique(&mut urls, string_of(&w));
    } else if contains_str(&u, "www.kuaishou.com") {
        let w = replace_exec(&u, &chars_of("www.kuaishou.com"), &chars_of("live.kuaishou.com"));
        push_unique(&mut urls, string_of(&w));
    }
    let eid = extract_user_id_from_url(url);
    if !eid.as_str().is_empty() {
        push_unique(&mut urls, prefixed_id("https://live.kuaishou.com/u/", &eid));
        push_unique(&mut urls, prefixed_id("https://www.kuaishou.com/u/", &eid));
        push_unique(&mut urls, prefixed_id("https://www.kuaishou.com/live/u/", &eid));
    }
    urls
}

/// An image URL as found in a page: trimmed, with `https:` put before a
/// protocol-relative `//` URL.
pub open spec fn image_url(url: Seq<char>) -> Seq<char> {
    let t = trim(url);
    if starts_with(t, "//"@) {
        "https:"@ + t
    } else {
        t
    }
}

pub fn normalize_image_url(url: &str) -> (r: String)
    ensures
        r@ == image_url(url@),
{
    let t = trim_str(url);
    if starts_with_str(&t, "//") {
        let mut v = chars_of("https:");
        append_chars(&mut v, &t);
        string_of(&v)
    } else {
        string_of(&t)
    }
}

/// The run of ASCII digits at the start of `s`.
pub open spec fn leading_digits(s: Seq<char>) -> Seq<char>
    decreases s.len(),
{
    if s.len() > 0 && is_ascii_digit(s[0]) {
        seq![s[0]] + leading_digits(s.drop_first())
    } else {
        Seq::empty()
    }
}

/// The first run of ASCII digits in `s` (empty when there is none).
pub open spec fn first_digit_run(s: Seq<char>) -> Seq<char>
    decreases s.len(),
{
    if s.len() == 0 {
        Seq::empty()
    } else if is_ascii_digit(s[0]) {
        leading_digits(s)
    } else {
        first_digit_run(s.drop_first())
    }
}

/// The rank of a quality label, by the first of these that its lower-case
/// form contains: 4K/2160/UHD 4000, 2K/1440/QHD 2000, 1080/FHD 1080,
/// 720/HD 720, 480/SD 480, 360/LD 360, original/source 3000; otherwise the
/// value of its first run of digits, or 0.
pub open spec fn label_rank(label: Seq<char>) -> i64 {
    let l = lower(label);
    if contains(l, "4k"@) || contains(l, "2160"@) || contains(l, "uhd"@) {
        4000
    } else if contains(l, "2k"@) || contains(l, "1440"@) || contains(l, "qhd"@) {
        2000
    } else if contains(l, "1080"@) || contains(l, "fhd"@) {
        1080
    } else if contains(l, "720"@) || contains(l, "hd"@) {
        720
    } else if contains(l, "480"@) || contains(l, "sd"@) {
        480
    } else if contains(l, "360"@) || contains(l, "ld"@) {
        360
    } else if contains(l, "original"@) || contains(l, "source"@) {
        3000
    } else {
        match parse_i64(first_digit_run(l)) {
            Some(v) => v,
            None => 0,
        }
    }
}

/// The first run of ASCII digits of `s`.
fn first_digits(s: &[char]) -> (r: Vec<char>)
    ensures
        r@ == first_digit_run(s@),
{
    let mut i: usize = 0;
    assert(s@.skip(0) =~= s@);
    while i < s.len() && !ascii_digit(s[i])
        invariant
            i <= s.len(),
            first_digit_run(s@) == first_digit_run(s@.skip(i as int)),
        decreases s.len() - i,
    {
        assert(s@.skip(i as int).drop_first() =~= s@.skip(i + 1));
        i += 1;
    }
    if i == s.len() {
        assert(s@.skip(i as int) =~= Seq::<char>::empty());
        return Vec::new();
    }
    let mut j: usize = i;
    assert(s@.subrange(i as int, j as int) =~= Seq::<char>::empty());
    assert(s@.subrange(i as int, j as int) + leading_digits(s@.skip(j as int)) =~= leading_digits(
        s@.skip(i as int),
    ));
    while j < s.len() && ascii_digit(s[j])
        invariant
            i <= j <= s.len(),
            leading_digits(s@.skip(i as int)) == s@.subrange(i as int, j as int) + leading_digits(
                s@.skip(j as int),
            ),
        decreases s.len() - j,
    {
        assert(s@.skip(j as int).drop_first() =~= s@.skip(j + 1));
        assert(s@.subrange(i as int, j as int) + leading_digits(s@.skip(j as int)) =~= s@.subrange(
            i as int,
            j + 1,
        ) + leading_digits(s@.skip(j + 1)));
        j += 1;
    }
    assert(leading_digits(s@.skip(j as int)) =~= Seq::<char>::empty());
    assert(s@.subrange(i as int, j as int) + Seq::<char>::empty() =~= s@.subrange(i as int, j as int));
    slice_chars(s, i, j)
}

pub fn quality_rank(label: &str) -> (r: i64)
    ensures
        r == label_rank(label@),
{
    let l = to_lower(&chars_of(label));
    if contains_str(&l, "4k") || contains_str(&l, "2160") || contains_str(&l, "uhd") {
        return 4000;
    }
    if contains_str(&l, "2k") || contains_str(&l, "1440") || contains_str(&l, "qhd") {
        return 2000;
    }
    if contains_str(&l, "1080") || contains_str(&l, "fhd") {
        return 1080;
    }
    if contains_str(&l, "720") || contains_str(&l, "hd") {
        return 720;
    }
    if contains_str(&l, "480") || contains_str(&l, "sd") {
        return 480;
    }
    if contains_str(&l, "360") || contains_str(&l, "ld") {
        return 360;
    }
    if contains_str(&l, "original") || contains_str(&l, "source") {
        return 3000;
    }
    match parse_i64_exec(&first_digits(&l)) {
        Some(v) => v,
        None => 0,
    }
}

// ---------------------------------------------------------------------------
// Page scraping
// ---------------------------------------------------------------------------

/// The site name that page titles end with.
pub const SITE_SUFFIX: &'static str = " - \u{8e47}\u{e0a3}\u{589c}\u{9429}\u{5b58}\u{6331}";

/// Where a page assigns its initial state, most specific first.
pub open spec fn initial_state_patterns() -> Seq<Seq<char>> {
    seq!["(?s)window\\.__INITIAL_STATE__\\s*=\\s*(\\{.*?\\});\\s*\\(function"@, "(?s)window\\.__INITIAL_STATE__\\s*=\\s*(\\{.*?\\})\\s*;\\s*</script>"@, "(?s)window\\['__INITIAL_STATE__'\\]\\s*=\\s*(\\{.*?\\})\\s*;\\s*</script>"@, "(?s)window\\.__INITIAL_STATE__\\s*=\\s*(\\{.*?\\})\\s*;\\s*window\\.__"@, "(?s)__INITIAL_STATE__\\s*=\\s*(\\{.*?\\})\\s*;\\s*\\(function"@, "(?s)__INITIAL_STATE__\\s*=\\s*(\\{.*?\\})\\s*;\\s*<"@]
}

fn initial_state_patterns_exec() -> (r: Vec<&'static str>)
    ensures
        r@.map_values(|s: &str| s@) == initial_state_patterns(),
{
    let r = vec!["(?s)window\\.__INITIAL_STATE__\\s*=\\s*(\\{.*?\\});\\s*\\(function", "(?s)window\\.__INITIAL_STATE__\\s*=\\s*(\\{.*?\\})\\s*;\\s*</script>", "(?s)window\\['__INITIAL_STATE__'\\]\\s*=\\s*(\\{.*?\\})\\s*;\\s*</script>", "(?s)window\\.__INITIAL_STATE__\\s*=\\s*(\\{.*?\\})\\s*;\\s*window\\.__", "(?s)__INITIAL_STATE__\\s*=\\s*(\\{.*?\\})\\s*;\\s*\\(function", "(?s)__INITIAL_STATE__\\s*=\\s*(\\{.*?\\})\\s*;\\s*<"];
    assert(r@.map_values(|s: &str| s@) =~= initial_state_patterns());
    r
}

/// Where a page names its title.
pub open spec fn title_patterns() -> Seq<Seq<char>> {
    seq!["<title>(.*?)</title>"@, "\"caption\"\\s*:\\s*\"([^\"]+)\""@, "\"title\"\\s*:\\s*\"([^\"]+)\""@]
}

fn title_patterns_exec() -> (r: Vec<&'static str>)
    ensures
        r@.map_values(|s: &str| s@) == title_patterns(),
{
    let r = vec!["<title>(.*?)</title>", "\"caption\"\\s*:\\s*\"([^\"]+)\"", "\"title\"\\s*:\\s*\"([^\"]+)\""];
    assert(r@.map_values(|s: &str| s@) =~= title_patterns());
    r
}

/// Where a page names the streamer's avatar.
pub open spec fn avatar_patterns() -> Seq<Seq<char>> {
    seq!["\"headUrl\"\\s*:\\s*\"([^\"]+)\""@, "\"avatar\"\\s*:\\s*\"([^\"]+)\""@, "\"avatarUrl\"\\s*:\\s*\"([^\"]+)\""@]
}

fn avatar_patterns_exec() -> (r: Vec<&'static str>)
    ensures
        r@.map_values(|s: &str| s@) == avatar_patterns(),
{
    let r = vec!["\"headUrl\"\\s*:\\s*\"([^\"]+)\"", "\"avatar\"\\s*:\\s*\"([^\"]+)\"", "\"avatarUrl\"\\s*:\\s*\"([^\"]+)\""];
    assert(r@.map_values(|s: &str| s@) =~= avatar_patterns());
    r
}

/// Where a page names the room's cover.
pub open spec fn cover_patterns() -> Seq<Seq<char>> {
    seq!["\"poster\"\\s*:\\s*\"([^\"]+)\""@, "\"coverUrl\"\\s*:\\s*\"([^\"]+)\""@, "\"cover\"\\s*:\\s*\"([^\"]+)\""@, "\"snapshot\"\\s*:\\s*\"([^\"]+)\""@]
}

fn cover_patterns_exec() -> (r: Vec<&'static str>)
    ensures
        r@.map_values(|s: &str| s@) == cover_patterns(),
{
    let r = vec!["\"poster\"\\s*:\\s*\"([^\"]+)\"", "\"coverUrl\"\\s*:\\s*\"([^\"]+)\"", "\"cover\"\\s*:\\s*\"([^\"]+)\"", "\"snapshot\"\\s*:\\s*\"([^\"]+)\""];
    assert(r@.map_values(|s: &str| s@) =~= cover_patterns());
    r
}

/// The first capture among `patterns`, trimmed.
pub open spec fn first_capture_trimmed(patterns: Seq<Seq<char>>, html: Seq<char>) -> Option<Seq<char>>
    decreases patterns.len(),
{
    if patterns.len() == 0 {
        None
    } else {
        match regex_capture(patterns[0], html, 1) {
            Some(c) => Some(trim(c)),
            None => first_capture_trimmed(patterns.drop_first(), html),
        }
    }
}

/// The page's initial state: the first object that one of
/// `initial_state_patterns` finds assigned, trimmed.
pub fn extract_initial_state(html_str: &str) -> (r: Option<String>)
    ensures
        opt_view(r) == first_capture_trimmed(initial_state_patterns(), html_str@),
{
    let patterns = initial_state_patterns_exec();
    let ghost pv = initial_state_patterns();
    let mut i: usize = 0;
    assert(pv.skip(0) =~= pv);
    while i < patterns.len()
        invariant
            i <= patterns.len(),
            pv == patterns@.map_values(|s: &str| s@),
            pv == initial_state_patterns(),
            first_capture_trimmed(pv, html_str@) == first_capture_trimmed(pv.skip(i as int), html_str@),
        decreases patterns.len() - i,
    {
        assert(pv.skip(i as int)[0] == patterns@[i as int]@);
        assert(pv.skip(i as int).drop_first() =~= pv.skip(i + 1));
        if let Some(c) = capture(patterns[i], html_str, 1) {
            return Some(string_of(&trim_str(c.as_str())));
        }
        i += 1;
    }
    assert(pv.skip(i as int) =~= Seq::<Seq<char>>::empty());
    None
}

/// A page title as captured: the site name removed, then trimmed.
pub open spec fn clean_title(c: Seq<char>) -> Seq<char> {
    trim(replace(c, SITE_SUFFIX@, Seq::empty()))
}

/// The first captured title that is not empty once cleaned.
pub open spec fn first_title(patterns: Seq<Seq<char>>, html: Seq<char>) -> Option<Seq<char>>
    decreases patterns.len(),
{
    if patterns.len() == 0 {
        None
    } else {
        match regex_capture(patterns[0], html, 1) {
            Some(c) => if clean_title(c).len() > 0 {
                Some(clean_title(c))
            } else {
                first_title(patterns.drop_first(), html)
            },
            None => first_title(patterns.drop_first(), html),
        }
    }
}

/// The first captured image URL that unescapes, as an image URL.
pub open spec fn first_image(patterns: Seq<Seq<char>>, html: Seq<char>) -> Option<Seq<char>>
    decreases patterns.len(),
{
    if patterns.len() == 0 {
        None
    } else {
        match regex_capture(patterns[0], html, 1) {
            Some(c) => match json_unescaped(c) {
                Some(d) => Some(image_url(d)),
                None => first_image(patterns.drop_first(), html),
            },
            None => first_image(patterns.drop_first(), html),
        }
    }
}

fn find_title(patterns: &Vec<&'static str>, html_str: &str) -> (r: Option<String>)
    ensures
        opt_view(r) == first_title(patterns@.map_values(|s: &str| s@), html_str@),
{
    let ghost pv = patterns@.map_values(|s: &str| s@);
    let suffix = chars_of(SITE_SUFFIX);
    let none: Vec<char> = Vec::new();
    let mut i: usize = 0;
    assert(pv.skip(0) =~= pv);
    while i < patterns.len()
        invariant
            i <= patterns.len(),
            pv == patterns@.map_values(|s: &str| s@),
            suffix@ == SITE_SUFFIX@,
            none@ == Seq::<char>::empty(),
            first_title(pv, html_str@) == first_title(pv.skip(i as int), html_str@),
        decreases patterns.len() - i,
    {
        assert(pv.skip(i as int)[0] == patterns@[i as int]@);
        assert(pv.skip(i as int).drop_first() =~= pv.skip(i + 1));
        if let Some(c) = capture(patterns[i], html_str, 1) {
            let t = trim_exec(&replace_exec(&chars_of(c.as_str()), &suffix, &none));
            if t.len() > 0 {
                return Some(string_of(&t));
            }
        }
        i += 1;
    }
    assert(pv.skip(i as int) =~= Seq::<Seq<char>>::empty());
    None
}

fn find_image(patterns: &Vec<&'static str>, html_str: &str) -> (r: Option<String>)
    ensures
        opt_view(r) == first_image(patterns@.map_values(|s: &str| s@), html_str@),
{
    let ghost pv = patterns@.map_values(|s: &str| s@);
    let mut i: usize = 0;
    assert(pv.skip(0) =~= pv);
    while i < patterns.len()
        invariant
            i <= patterns.len(),
            pv == patterns@.map_values(|s: &str| s@),
            first_image(pv, html_str@) == first_image(pv.skip(i as int), html_str@),
        decreases patterns.len() - i,
    {
        assert(pv.skip(i as int)[0] == patterns@[i as int]@);
        assert(pv.skip(i as int).drop_first() =~= pv.skip(i + 1));
        if let Some(c) = capture(patterns[i], html_str, 1) {
            if let Some(d) = decode_json_string(c.as_str()) {
                return Some(normalize_image_url(d.as_str()));
            }
        }
        i += 1;
    }
    assert(pv.skip(i as int) =~= Seq::<Seq<char>>::empty());
    None
}

/// The title, cover and avatar that a page names (see `first_title` and
/// `first_image`).
pub fn extract_metadata_from_html(html_str: &str) -> (r: (Option<String>, Option<String>, Option<String>))
    ensures
        opt_view(r.0) == first_title(title_patterns(), html_str@),
        opt_view(r.1) == first_image(cover_patterns(), html_str@),
        opt_view(r.2) == first_image(avatar_patterns(), html_str@),
{
    let title = find_title(&title_patterns_exec(), html_str);
    let cover = find_image(&cover_patterns_exec(), html_str);
    let avatar = find_image(&avatar_patterns_exec(), html_str);
    (title, cover, avatar)
}

// ---------------------------------------------------------------------------
// Image URLs in the page state
// ---------------------------------------------------------------------------

/// The URL that a value gives for an image: a string itself; an object's
/// `url` string, else the first item of its first present `urlList`,
/// `url_list` or `urls` member when that is an array of which the first
/// item is a string; an array's first item when it is a string.
pub open spec fn image_of(value: Json) -> Option<Seq<char>> {
    match value {
        Json::Str(s) => Some(s@),
        Json::Object(m) => match str_member(value, "url"@) {
            Some(u) => Some(u),
            None => {
                let list = match member(m@, "urlList"@) {
                    Some(l) => Some(l),
                    None => match member(m@, "url_list"@) {
                        Some(l) => Some(l),
                        None => member(m@, "urls"@),
                    },
                };
                match list {
                    Some(l) => match l.array_items() {
                        Some(items) => if items.len() > 0 {
                            items[0].str_value()
                        } else {
                            None
                        },
                        None => None,
                    },
                    None => None,
                }
            },
        },
        Json::Array(items) => if items@.len() > 0 {
            items@[0].str_value()
        } else {
            None
        },
        _ => None,
    }
}

/// The image of the first of `keys` whose member gives one.
pub open spec fn keyed_image(m: Seq<(String, Json)>, keys: Seq<Seq<char>>) -> Option<Seq<char>>
    decreases keys.len(),
{
    if keys.len() == 0 {
        None
    } else {
        match member(m, keys[0]) {
            Some(v) => match image_of(v) {
                Some(u) => Some(image_url(u)),
                None => keyed_image(m, keys.drop_first()),
            },
            None => keyed_image(m, keys.drop_first()),
        }
    }
}

/// Whether a member name looks like it holds a cover or an avatar.
pub open spec fn image_name(name: Seq<char>) -> bool {
    contains(lower(name), "cover"@) || contains(lower(name), "avatar"@)
}

/// The image of the first member whose name looks like a cover or avatar.
pub open spec fn named_image(m: Seq<(String, Json)>) -> Option<Seq<char>>
    decreases m.len(),
{
    if m.len() == 0 {
        None
    } else if image_name(m[0].0@) && image_of(m[0].1) is Some {
        Some(image_url(image_of(m[0].1)->0))
    } else {
        named_image(m.drop_first())
    }
}

/// The image URL found in a value: in an object, the image of the first of
/// `keys` that has one, else of the first member named like a cover or an
/// avatar, else the first found in a member's value (in order); in an
/// array, the first found in an item.
pub open spec fn found_image(value: Json, keys: Seq<Seq<char>>) -> Option<Seq<char>>
    decreases value,
{
    match value {
        Json::Object(m) => match keyed_image(m@, keys) {
            Some(u) => Some(u),
            None => match named_image(m@) {
                Some(u) => Some(u),
                None => member_image(m@, keys),
            },
        },
        Json::Array(items) => item_image(items@, keys),
        _ => None,
    }
}

/// The first image found in the members' values.
pub open spec fn member_image(m: Seq<(String, Json)>, keys: Seq<Seq<char>>) -> Option<Seq<char>>
    decreases m,
{
    if m.len() == 0 {
        None
    } else {
        match found_image(m[0].1, keys) {
            Some(u) => Some(u),
            None => member_image(m.drop_first(), keys),
        }
    }
}

/// The first image found in the items.
pub open spec fn item_image(items: Seq<Json>, keys: Seq<Seq<char>>) -> Option<Seq<char>>
    decreases items,
{
    if items.len() == 0 {
        None
    } else {
        match found_image(items[0], keys) {
            Some(u) => Some(u),
            None => item_image(items.drop_first(), keys),
        }
    }
}

fn image_of_exec(value: &Json) -> (r: Option<String>)
    ensures
        opt_view(r) == image_of(*value),
{
    match value {
        Json::Str(s) => Some(s.clone()),
        Json::Object(_) => {
            if let Some(u) = value.get_str("url") {
                return Some(u);
            }
            let list = match value.get("urlList") {
                Some(l) => Some(l),
                None => match value.get("url_list") {
                    Some(l) => Some(l),
                    None => value.get("urls"),
                },
            };
            match list {
                Some(l) => match l.as_array() {
                    Some(items) => if items.len() > 0 {
                        match items[0].as_str() {
                            Some(s) => Some(s.clone()),
                            None => None,
                        }
                    } else {
                        None
                    },
                    None => None,
                },
                None => None,
            }
        },
        Json::Array(items) => if items.len() > 0 {
            match items[0].as_str() {
                Some(s) => Some(s.clone()),
                None => None,
            }
        } else {
            None
        },
        _ => None,
    }
}

fn keyed_image_exec(value: &Json, keys: &[&str]) -> (r: Option<String>)
    requires
        value is Object,
    ensures
        opt_view(r) == keyed_image(value->Object_0@, keys@.map_values(|s: &str| s@)),
{
    let ghost kv = keys@.map_values(|s: &str| s@);
    let ghost m = value->Object_0@;
    let mut i: usize = 0;
    assert(kv.skip(0) =~= kv);
    while i < keys.len()
        invariant
            i <= keys.len(),
            kv == keys@.map_values(|s: &str| s@),
            value is Object,
            m == value->Object_0@,
            keyed_image(m, kv) == keyed_image(m, kv.skip(i as int)),
        decreases keys.len() - i,
    {
        assert(kv.skip(i as int)[0] == keys@[i as int]@);
        assert(kv.skip(i as int).drop_first() =~= kv.skip(i + 1));
        if let Some(v) = value.get(keys[i]) {
            if let Some(u) = image_of_exec(v) {
                return Some(normalize_image_url(u.as_str()));
            }
        }
        i += 1;
    }
    assert(kv.skip(i as int) =~= Seq::<Seq<char>>::empty());
    None
}

fn named_image_exec(m: &Vec<(String, Json)>) -> (r: Option<String>)
    ensures
        opt_view(r) == named_image(m@),
{
    let mut i: usize = 0;
    assert(m@.skip(0) =~= m@);
    while i < m.len()
        invariant
            i <= m.len(),
            named_image(m@) == named_image(m@.skip(i as int)),
        decreases m.len() - i,
    {
        assert(m@.skip(i as int)[0] == m@[i as int]);
        assert(m@.skip(i as int).drop_first() =~= m@.skip(i + 1));
        let name = to_lower(&chars_of(m[i].0.as_str()));
        if contains_str(&name, "cover") || contains_str(&name, "avatar") {
            if let Some(u) = image_of_exec(&m[i].1) {
                return Some(normalize_image_url(u.as_str()));
            }
        }
        i += 1;
    }
    assert(m@.skip(i as int) =~= Seq::<(String, Json)>::empty());
    None
}

/// The image URL found in a value (see `found_image`).
pub fn find_image_url(value: &Json, keys: &[&str]) -> (r: Option<String>)
    ensures
        opt_view(r) == found_image(*value, keys@.map_values(|s: &str| s@)),
    decreases value,
{
    let ghost kv = keys@.map_values(|s: &str| s@);
    match value {
        Json::Object(m) => {
            if let Some(u) = keyed_image_exec(value, keys) {
                return Some(u);
            }
            if let Some(u) = named_image_exec(m) {
                return Some(u);
            }
            let mut i: usize = 0;
            assert(m@.skip(0) =~= m@);
            while i < m.len()
                invariant
                    i <= m.len(),
                    kv == keys@.map_values(|s: &str| s@),
                    *value == Json::Object(*m),
                    keyed_image(m@, kv) is None,
                    named_image(m@) is None,
                    member_image(m@, kv) == member_image(m@.skip(i as int), kv),
                decreases m.len() - i,
            {
                assert(m@.skip(i as int)[0] == m@[i as int]);
                assert(m@.skip(i as int).drop_first() =~= m@.skip(i + 1));
                proof {
                    assert(decreases_to!(*value => m@[i as int].1));
                }
                if let Some(u) = find_image_url(&m[i].1, keys) {
                    return Some(u);
                }
                i += 1;
            }
            assert(m@.skip(i as int) =~= Seq::<(String, Json)>::empty());
            None
        },
        Json::Array(items) => {
            let mut i: usize = 0;
            assert(items@.skip(0) =~= items@);
            while i < items.len()
                invariant
                    i <= items.len(),
                    kv == keys@.map_values(|s: &str| s@),
                    *value == Json::Array(*items),
                    item_image(items@, kv) == item_image(items@.skip(i as int), kv),
                decreases items.len() - i,
            {
                assert(items@.skip(i as int)[0] == items@[i as int]);
                assert(items@.skip(i as int).drop_first() =~= items@.skip(i + 1));
                proof {
                    assert(decreases_to!(*value => items@[i as int]));
                }
                if let Some(u) = find_image_url(&items[i], keys) {
                    return Some(u);
                }
                i += 1;
            }
            assert(items@.skip(i as int) =~= Seq::<Json>::empty());
            None
        },
        _ => None,
    }
}

// ---------------------------------------------------------------------------
// Room information from the web page
// ---------------------------------------------------------------------------

/// What a room page shows before its state is read: the room info to fall
/// back on, whether the page has a stream of its own, the page's title,
/// cover and avatar, and the initial-state text.
#[derive(Debug, Clone)]
pub struct RoomPage {
    pub fallback: RoomInfo,
    pub has_fallback_stream: bool,
    pub html_title: Option<String>,
    pub html_cover: Option<String>,
    pub html_avatar: Option<String>,
    pub state: Option<String>,
}

/// A room info as plain values: live status, title, cover, user id, user
/// name and avatar.
pub open spec fn room_view(r: RoomInfo) -> (bool, Seq<char>, Seq<char>, Seq<char>, Seq<char>, Seq<char>) {
    (r.live_status, r.room_title@, r.room_cover_url@, r.user_id@, r.user_name@, r.user_avatar@)
}

/// The value, or `default` when absent.
pub open spec fn or_else(o: Option<Seq<char>>, default: Seq<char>) -> Seq<char> {
    match o {
        Some(v) => v,
        None => default,
    }
}

/// The room info that a page gives without its state: live when it has an
/// HLS URL; the account's id, else the URL's user id; the account's name,
/// else the page title, else `Kuaishou Live`; the page title, else
/// `{name}'s live`; the page's cover and avatar, else empty.
pub open spec fn fallback_view(html: Seq<char>, url: Seq<char>, account_id: Seq<char>, account_name: Seq<char>) -> (
    bool,
    Seq<char>,
    Seq<char>,
    Seq<char>,
    Seq<char>,
    Seq<char>,
) {
    let title = first_title(title_patterns(), html);
    let name = if account_name.len() == 0 {
        or_else(title, "Kuaishou Live"@)
    } else {
        account_name
    };
    (
        page_hls_play_url(html) is Some,
        or_else(title, name + "'s live"@),
        or_else(first_image(cover_patterns(), html), Seq::empty()),
        if account_id.len() == 0 {
            url_user_id(url)
        } else {
            account_id
        },
        name,
        or_else(first_image(avatar_patterns(), html), Seq::empty()),
    )
}

fn or_empty_string(o: &Option<String>) -> (r: String)
    ensures
        r@ == or_else(opt_view(*o), Seq::empty()),
{
    match o {
        Some(s) => s.clone(),
        None => String::new(),
    }
}

fn suffixed(name: &String, suffix: &str) -> (r: String)
    ensures
        r@ == name@ + suffix@,
{
    let mut r = name.clone();
    r.append(suffix);
    r
}

/// Reads a room page: refuses a page that says requests come too often,
/// else gives what the page shows (see `fallback_view`, `page_hls_play_url`,
/// `extract_metadata_from_html` and `extract_initial_state`).
pub fn extract_room_page(html_str: &str, url: &str, account: &crate::account::Account) -> (r: Result<
    RoomPage,
    RecorderError,
>)
    ensures
        rate_limit_message(html_str@) <==> r is Err,
        r matches Err(e) ==> (e matches RecorderError::ApiError { error } && error@
            == "Rate limited by Kuaishou web page"@),
        r matches Ok(p) ==> {
            &&& room_view(p.fallback) == fallback_view(html_str@, url@, account.id@, account.name@)
            &&& p.has_fallback_stream == (page_hls_play_url(html_str@) is Some)
            &&& opt_view(p.html_title) == first_title(title_patterns(), html_str@)
            &&& opt_view(p.html_cover) == first_image(cover_patterns(), html_str@)
            &&& opt_view(p.html_avatar) == first_image(avatar_patterns(), html_str@)
            &&& opt_view(p.state) == first_capture_trimmed(initial_state_patterns(), html_str@)
        },
{
    if is_rate_limit_message(html_str) {
        return Err(
            RecorderError::ApiError { error: String::from_str("Rate limited by Kuaishou web page") },
        );
    }
    let has_fallback_stream = extract_hls_play_url(html_str).is_some();
    let user_id = if account.id.as_str().is_empty() {
        extract_user_id_from_url(url)
    } else {
        account.id.clone()
    };
    let (html_title, html_cover, html_avatar) = extract_metadata_from_html(html_str);
    let user_name = if account.name.as_str().is_empty() {
        match &html_title {
            Some(t) => t.clone(),
            None => String::from_str("Kuaishou Live"),
        }
    } else {
        account.name.clone()
    };
    let room_title = match &html_title {
        Some(t) => t.clone(),
        None => suffixed(&user_name, "'s live"),
    };
    let fallback = RoomInfo {
        live_status: has_fallback_stream,
        room_title,
        room_cover_url: or_empty_string(&html_cover),
        user_id,
        user_name,
        user_avatar: or_empty_string(&html_avatar),
    };
    let state = extract_initial_state(html_str);
    Ok(RoomPage { fallback, has_fallback_stream, html_title, html_cover, html_avatar, state })
}

/// The answer for a page whose state could not be read (`state_error` is
/// why, `None` when the page had no state): the fallback room info when the
/// page has a stream of its own, else the error.
pub fn room_info_without_state(page: RoomPage, state_error: Option<RecorderError>) -> (r: Result<
    RoomInfo,
    RecorderError,
>)
    ensures
        page.has_fallback_stream ==> r == Ok::<RoomInfo, RecorderError>(page.fallback),
        !page.has_fallback_stream ==> match state_error {
            Some(e) => r == Err::<RoomInfo, RecorderError>(e),
            None => r matches Err(RecorderError::ApiError { error }) && error@
                == "Failed to extract JSON data from page"@,
        },
{
    if page.has_fallback_stream {
        return Ok(page.fallback);
    }
    match state_error {
        Some(e) => Err(e),
        None => Err(
            RecorderError::ApiError { error: String::from_str("Failed to extract JSON data from page") },
        ),
    }
}

/// The member names that hold an avatar in a page state.
pub open spec fn avatar_keys() -> Seq<Seq<char>> {
    seq!["headurl"@, "headUrl"@, "avatar"@, "avatarUrl"@, "portrait"@, "profilePic"@, "avatarThumb"@]
}

/// The member names that hold a cover in a page state.
pub open spec fn cover_keys() -> Seq<Seq<char>> {
    seq!["cover"@, "coverUrl"@, "poster"@, "image"@]
}

/// The patterns of a cover written in a page state's text.
pub open spec fn state_cover_patterns() -> Seq<Seq<char>> {
    seq!["\"poster\"\\s*:\\s*\"([^\"]+)\""@, "\"coverUrl\"\\s*:\\s*\"([^\"]+)\""@, "\"cover\"\\s*:\\s*\"([^\"]+)\""@]
}

/// The first of `patterns` that matches, its capture unescaped (`None` when
/// that fails: later patterns are not tried).
pub open spec fn first_unescaped(patterns: Seq<Seq<char>>, text: Seq<char>) -> Option<Seq<char>>
    decreases patterns.len(),
{
    if patterns.len() == 0 {
        None
    } else {
        match regex_capture(patterns[0], text, 1) {
            Some(c) => json_unescaped(c),
            None => first_unescaped(patterns.drop_first(), text),
        }
    }
}

/// A non-empty image URL made of an optional field.
pub open spec fn nonempty_image(o: Option<Seq<char>>) -> Option<Seq<char>> {
    match o {
        Some(u) => if image_url(u).len() > 0 {
            Some(image_url(u))
        } else {
            None
        },
        None => None,
    }
}

/// The room info that a page's state gives (`state` is the state text read
/// as JSON, when it reads): an error the state reports, or a missing live
/// stream, is refused; the author's name (else the account's, else
/// `Kuaishou Live`) and id (else the account's); the author's avatar, else
/// one found in the state, else the page's; live when the H.264 playlist
/// has a representation; the live stream's cover, else one found in the
/// state or written in its text, else the avatar, else the page's cover;
/// the caption, else the page title, else `{name}'s live`.
pub open spec fn state_room_view(
    page: RoomPage,
    live: LiveStreamResponse,
    state: Option<Json>,
    state_text: Seq<char>,
    account_id: Seq<char>,
    account_name: Seq<char>,
) -> Result<(bool, Seq<char>, Seq<char>, Seq<char>, Seq<char>, Seq<char>), Seq<char>> {
    match live.error_type {
        Some(e) => Err(e.title@ + ": "@ + e.content@),
        None => match live.live_stream {
            None => Err("No liveStream found in response"@),
            Some(ls) => {
                let (a_name, a_id, a_head) = match live.author {
                    Some(a) => (a.name@, a.id@, opt_view(a.head_url)),
                    None => (Seq::<char>::empty(), Seq::<char>::empty(), None::<Seq<char>>),
                };
                let name = if a_name.len() == 0 {
                    if account_name.len() == 0 {
                        "Kuaishou Live"@
                    } else {
                        account_name
                    }
                } else {
                    a_name
                };
                let id = if a_id.len() == 0 {
                    account_id
                } else {
                    a_id
                };
                let avatar = match nonempty_image(a_head) {
                    Some(u) => u,
                    None => match state {
                        Some(v) => or_else(found_image(v, avatar_keys()), Seq::empty()),
                        None => Seq::empty(),
                    },
                };
                let live_status = match ls.play_urls {
                    Some(p) => match p.h264 {
                        Some(h) => match h.adaptation_set {
                            Some(a) => a.representation@.len() > 0,
                            None => false,
                        },
                        None => false,
                    },
                    None => false,
                };
                let cover = match nonempty_image(opt_view(ls.cover_url)) {
                    Some(u) => u,
                    None => match state {
                        Some(v) => match found_image(v, cover_keys()) {
                            Some(u) => u,
                            None => or_else(first_unescaped(state_cover_patterns(), state_text), avatar),
                        },
                        None => avatar,
                    },
                };
                let caption = match opt_view(ls.caption) {
                    Some(c) => Some(c),
                    None => match live.config {
                        Some(c) => opt_view(c.caption),
                        None => None,
                    },
                };
                let title = match caption {
                    Some(c) => if c.len() > 0 {
                        c
                    } else {
                        or_else(opt_view(page.html_title), name + "'s live"@)
                    },
                    None => or_else(opt_view(page.html_title), name + "'s live"@),
                };
                Ok(
                    (
                        live_status,
                        title,
                        if cover.len() == 0 {
                            or_else(opt_view(page.html_cover), Seq::empty())
                        } else {
                            cover
                        },
                        id,
                        name,
                        if avatar.len() == 0 {
                            or_else(opt_view(page.html_avatar), Seq::empty())
                        } else {
                            avatar
                        },
                    ),
                )
            },
        },
    }
}

fn nonempty_image_exec(o: &Option<String>) -> (r: Option<String>)
    ensures
        opt_view(r) == nonempty_image(opt_view(*o)),
{
    match o {
        Some(u) => {
            let n = normalize_image_url(u.as_str());
            if n.as_str().is_empty() {
                None
            } else {
                Some(n)
            }
        },
        None => None,
    }
}

fn first_unescaped_exec(text: &str) -> (r: Option<String>)
    ensures
        opt_view(r) == first_unescaped(state_cover_patterns(), text@),
{
    let patterns: Vec<&'static str> = vec!["\"poster\"\\s*:\\s*\"([^\"]+)\"", "\"coverUrl\"\\s*:\\s*\"([^\"]+)\"", "\"cover\"\\s*:\\s*\"([^\"]+)\""];
    let ghost pv = patterns@.map_values(|s: &str| s@);
    assert(pv =~= state_cover_patterns());
    let mut i: usize = 0;
    assert(pv.skip(0) =~= pv);
    while i < patterns.len()
        invariant
            i <= patterns.len(),
            pv == patterns@.map_values(|s: &str| s@),
            pv == state_cover_patterns(),
            first_unescaped(pv, text@) == first_unescaped(pv.skip(i as int), text@),
        decreases patterns.len() - i,
    {
        assert(pv.skip(i as int)[0] == patterns@[i as int]@);
        assert(pv.skip(i as int).drop_first() =~= pv.skip(i + 1));
        if let Some(c) = capture(patterns[i], text, 1) {
            return decode_json_string(c.as_str());
        }
        i += 1;
    }
    assert(pv.skip(i as int) =~= Seq::<Seq<char>>::empty());
    None
}

/// The room info that a page's state gives (see `state_room_view`).
pub fn room_info_from_state(
    page: &RoomPage,
    live: &LiveStreamResponse,
    state_text: &str,
    account: &crate::account::Account,
) -> (r: Result<RoomInfo, RecorderError>)
    ensures
        match state_room_view(
            *page,
            *live,
            match json_parsed(state_text@) {
                Ok(v) => Some(v),
                Err(_) => None::<Json>,
            },
            state_text@,
            account.id@,
            account.name@,
        ) {
            Ok(t) => r matches Ok(ri) && room_view(ri) == t,
            Err(m) => r matches Err(RecorderError::ApiError { error }) && error@ == m,
        },
{
    let parsed = parse_json(state_text);
    let state: Option<&Json> = match &parsed {
        Ok(v) => Some(v),
        Err(_) => None,
    };
    if let Some(e) = &live.error_type {
        let mut msg = chars_of(e.title.as_str());
        append_str(&mut msg, ": ");
        append_str(&mut msg, e.content.as_str());
        return Err(RecorderError::ApiError { error: string_of(&msg) });
    }
    let ls = match &live.live_stream {
        Some(ls) => ls,
        None => {
            return Err(
                RecorderError::ApiError { error: String::from_str("No liveStream found in response") },
            );
        },
    };
    let (a_name, a_id, a_head) = match &live.author {
        Some(a) => (a.name.clone(), a.id.clone(), a.head_url.clone()),
        None => (String::new(), String::new(), None),
    };
    let name = if a_name.as_str().is_empty() {
        if account.name.as_str().is_empty() {
            String::from_str("Kuaishou Live")
        } else {
            account.name.clone()
        }
    } else {
        a_name
    };
    let id = if a_id.as_str().is_empty() {
        account.id.clone()
    } else {
        a_id
    };
    let avatar_names: Vec<&'static str> = vec![
        "headurl",
        "headUrl",
        "avatar",
        "avatarUrl",
        "portrait",
        "profilePic",
        "avatarThumb",
    ];
    assert(avatar_names@.map_values(|s: &str| s@) =~= avatar_keys());
    let cover_names: Vec<&'static str> = vec!["cover", "coverUrl", "poster", "image"];
    assert(cover_names@.map_values(|s: &str| s@) =~= cover_keys());
    let avatar = match nonempty_image_exec(&a_head) {
        Some(u) => u,
        None => match state {
            Some(v) => match find_image_url(v, avatar_names.as_slice()) {
                Some(u) => u,
                None => String::new(),
            },
            None => String::new(),
        },
    };
    let live_status = match &ls.play_urls {
        Some(p) => match &p.h264 {
            Some(h) => match &h.adaptation_set {
                Some(a) => a.representation.len() > 0,
                None => false,
            },
            None => false,
        },
        None => false,
    };
    let cover = match nonempty_image_exec(&ls.cover_url) {
        Some(u) => u,
        None => match state {
            Some(v) => match find_image_url(v, cover_names.as_slice()) {
                Some(u) => u,
                None => match first_unescaped_exec(state_text) {
                    Some(u) => u,
                    None => avatar.clone(),
                },
            },
            None => avatar.clone(),
        },
    };
    let caption = match &ls.caption {
        Some(c) => Some(c.clone()),
        None => match &live.config {
            Some(c) => c.caption.clone(),
            None => None,
        },
    };
    let fallback_title = match &page.html_title {
        Some(t) => t.clone(),
        None => suffixed(&name, "'s live"),
    };
    let title = match caption {
        Some(c) => if c.as_str().is_empty() {
            fallback_title
        } else {
            c
        },
        None => fallback_title,
    };
    let room_cover_url = if cover.as_str().is_empty() {
        or_empty_string(&page.html_cover)
    } else {
        cover
    };
    let user_avatar = if avatar.as_str().is_empty() {
        or_empty_string(&page.html_avatar)
    } else {
        avatar
    };
    Ok(
        RoomInfo {
            live_status,
            room_title: title,
            room_cover_url,
            user_id: id,
            user_name: name,
            user_avatar,
        },
    )
}

// ---------------------------------------------------------------------------
// Stream URLs from the web page
// ---------------------------------------------------------------------------

/// A stream as plain values: URL, quality label and bitrate.
pub open spec fn info_view(s: StreamInfo) -> (Seq<char>, Seq<char>, Option<i64>) {
    (s.url@, s.quality@, s.bitrate)
}

pub open spec fn infos_view(v: Seq<StreamInfo>) -> Seq<(Seq<char>, Seq<char>, Option<i64>)> {
    v.map_values(|s: StreamInfo| info_view(s))
}

/// A bitrate, 0 when unknown.
pub open spec fn or_zero(b: Option<i64>) -> i64 {
    match b {
        Some(v) => v,
        None => 0,
    }
}

/// Whether a URL names an HLS playlist.
pub open spec fn is_hls(url: Seq<char>) -> bool {
    contains(url, ".m3u8"@)
}

/// Higher bitrates first.
pub open spec fn higher_bitrate() -> spec_fn(
    (Seq<char>, Seq<char>, Option<i64>),
    (Seq<char>, Seq<char>, Option<i64>),
) -> bool {
    |a: (Seq<char>, Seq<char>, Option<i64>), b: (Seq<char>, Seq<char>, Option<i64>)|
        or_zero(b.2) < or_zero(a.2)
}

/// HLS playlists first, then higher bitrates, then higher quality ranks.
pub open spec fn listing_order() -> spec_fn(
    (Seq<char>, Seq<char>, Option<i64>),
    (Seq<char>, Seq<char>, Option<i64>),
) -> bool {
    |a: (Seq<char>, Seq<char>, Option<i64>), b: (Seq<char>, Seq<char>, Option<i64>)|
        (is_hls(a.0) && !is_hls(b.0)) || (is_hls(a.0) == is_hls(b.0) && (or_zero(b.2) < or_zero(a.2)
            || (or_zero(b.2) == or_zero(a.2) && label_rank(b.1) < label_rank(a.1))))
}

/// The order used by `by_list`: the listing order, else bitrate alone.
pub open spec fn stream_order(by_list: bool) -> spec_fn(
    (Seq<char>, Seq<char>, Option<i64>),
    (Seq<char>, Seq<char>, Option<i64>),
) -> bool {
    if by_list {
        listing_order()
    } else {
        higher_bitrate()
    }
}

fn stream_before(a: &StreamInfo, b: &StreamInfo, by_list: bool) -> (r: bool)
    ensures
        r == (stream_order(by_list))(info_view(*a), info_view(*b)),
{
    let ab: i64 = match a.bitrate {
        Some(v) => v,
        None => 0,
    };
    let bb: i64 = match b.bitrate {
        Some(v) => v,
        None => 0,
    };
    if !by_list {
        return bb < ab;
    }
    let ah = contains_str(&chars_of(a.url.as_str()), ".m3u8");
    let bh = contains_str(&chars_of(b.url.as_str()), ".m3u8");
    if ah != bh {
        return ah;
    }
    if bb != ab {
        return bb < ab;
    }
    quality_rank(b.quality.as_str()) < quality_rank(a.quality.as_str())
}

fn insert_info(out: &mut Vec<StreamInfo>, x: StreamInfo, by_list: bool)
    ensures
        infos_view(final(out)@) == crate::sorting::insert_by(
            infos_view(old(out)@),
            info_view(x),
            stream_order(by_list),
        ),
{
    let ghost sv = infos_view(out@);
    let mut j: usize = out.len();
    while j > 0 && stream_before(&x, &out[j - 1], by_list)
        invariant
            j <= out.len(),
            out@ == old(out)@,
            sv == infos_view(out@),
            forall|k: int| j <= k < out.len() ==> (stream_order(by_list))(info_view(x), #[trigger] sv[k]),
        decreases j,
    {
        j -= 1;
    }
    proof {
        if j > 0 {
            assert(sv[j - 1] == info_view(out@[j - 1]));
        }
        crate::sorting::lemma_insert_by_at(sv, info_view(x), stream_order(by_list), j as int);
    }
    out.insert(j, x);
    assert(infos_view(out@) =~= sv.insert(j as int, info_view(x)));
}

/// A representation as a listed stream: its URL, its name (else its
/// quality type, else nothing) and its bitrate.
pub open spec fn rep_view(r: Representation) -> (Seq<char>, Seq<char>, Option<i64>) {
    (r.url@, or_else(opt_view(r.name), or_else(opt_view(r.quality_type), Seq::empty())), r.bitrate)
}

/// The representations of a playlist set, if it has any.
pub open spec fn set_reps(h: Option<H264>) -> Seq<Representation> {
    match h {
        Some(h) => match h.adaptation_set {
            Some(a) => a.representation@,
            None => Seq::empty(),
        },
        None => Seq::empty(),
    }
}

/// The items with a URL not seen earlier in the sequence.
pub open spec fn first_urls(s: Seq<(Seq<char>, Seq<char>, Option<i64>)>) -> Seq<
    (Seq<char>, Seq<char>, Option<i64>),
>
    decreases s.len(),
{
    if s.len() == 0 {
        s
    } else {
        let pre = first_urls(s.drop_last());
        if exists|i: int| 0 <= i < s.len() - 1 && (#[trigger] s[i]).0 == s.last().0 {
            pre
        } else {
            pre.push(s.last())
        }
    }
}

/// Whether some listed stream is an HLS playlist.
pub open spec fn has_hls(s: Seq<(Seq<char>, Seq<char>, Option<i64>)>) -> bool {
    exists|i: int| 0 <= i < s.len() && is_hls((#[trigger] s[i]).0)
}

/// The URL of the first listed FLV stream.
pub open spec fn first_flv(s: Seq<(Seq<char>, Seq<char>, Option<i64>)>) -> Option<Seq<char>>
    decreases s.len(),
{
    if s.len() == 0 {
        None
    } else if contains(s[0].0, ".flv"@) {
        Some(s[0].0)
    } else {
        first_flv(s.drop_first())
    }
}

/// `str::replacen(from, to, 1)`: the first occurrence replaced.
pub open spec fn replace_first(s: Seq<char>, from: Seq<char>, to: Seq<char>) -> Seq<char> {
    match find(s, from) {
        Some(k) => s.take(k) + to + s.skip(k + from.len()),
        None => s,
    }
}

/// The streams of a page state's playlists: all representations, by
/// bitrate, each URL once; the page's own HLS URL first when none of them
/// is an HLS playlist; then HLS first, by bitrate, by quality rank; and, when
/// there is still no HLS playlist, one guessed from the first FLV URL put
/// first. No representation at all is an error.
pub open spec fn page_stream_urls(fallback: Option<Seq<char>>, play: PlayUrls) -> Result<
    Seq<(Seq<char>, Seq<char>, Option<i64>)>,
    Seq<char>,
> {
    let all = (set_reps(play.h264) + set_reps(play.h265)).map_values(|r: Representation| rep_view(r));
    if all.len() == 0 {
        Err("No usable stream representations found"@)
    } else {
        let u1 = first_urls(crate::sorting::sort_by(all, higher_bitrate()));
        let u2 = match fallback {
            Some(f) => if !has_hls(u1) {
                seq![(f, "hls"@, None::<i64>)] + u1
            } else {
                u1
            },
            None => u1,
        };
        let u3 = crate::sorting::sort_by(u2, listing_order());
        if !has_hls(u3) {
            match first_flv(u3) {
                Some(f) => {
                    let g = replace_first(f, ".flv"@, ".m3u8"@);
                    if g != f {
                        Ok(seq![(g, "hls"@, None::<i64>)] + u3)
                    } else {
                        Ok(u3)
                    }
                },
                None => Ok(u3),
            }
        } else {
            Ok(u3)
        }
    }
}

fn copy_info(s: &StreamInfo) -> (r: StreamInfo)
    ensures
        info_view(r) == info_view(*s),
{
    StreamInfo { url: s.url.clone(), quality: s.quality.clone(), bitrate: s.bitrate }
}

fn add_reps(out: &mut Vec<StreamInfo>, h: &Option<H264>, Ghost(before): Ghost<Seq<(Seq<char>, Seq<char>, Option<i64>)>>)
    requires
        infos_view(old(out)@) == crate::sorting::sort_by(before, higher_bitrate()),
    ensures
        infos_view(final(out)@) == crate::sorting::sort_by(
            before + set_reps(*h).map_values(|r: Representation| rep_view(r)),
            higher_bitrate(),
        ),
{
    let ghost reps = set_reps(*h).map_values(|r: Representation| rep_view(r));
    let empty: Vec<Representation> = Vec::new();
    let list: &Vec<Representation> = match h {
        Some(h) => match &h.adaptation_set {
            Some(a) => &a.representation,
            None => &empty,
        },
        None => &empty,
    };
    assert(list@.map_values(|r: Representation| rep_view(r)) =~= reps);
    let mut i: usize = 0;
    assert(before + reps.take(0) =~= before);
    while i < list.len()
        invariant
            i <= list.len(),
            reps == list@.map_values(|r: Representation| rep_view(r)),
            infos_view(out@) == crate::sorting::sort_by(before + reps.take(i as int), higher_bitrate()),
        decreases list.len() - i,
    {
        let r = &list[i];
        let quality = match &r.name {
            Some(n) => n.clone(),
            None => match &r.quality_type {
                Some(q) => q.clone(),
                None => String::new(),
            },
        };
        let x = StreamInfo { url: r.url.clone(), quality, bitrate: r.bitrate };
        assert(info_view(x) == reps[i as int]);
        insert_info(out, x, false);
        assert((before + reps.take(i + 1)).drop_last() =~= before + reps.take(i as int));
        assert((before + reps.take(i + 1)).last() == reps[i as int]);
        i += 1;
    }
    assert(reps.take(list.len() as int) =~= reps);
}

fn url_seen(s: &Vec<StreamInfo>, upto: usize, url: &String) -> (r: bool)
    requires
        upto <= s.len(),
    ensures
        r == exists|i: int| 0 <= i < upto && (#[trigger] infos_view(s@)[i]).0 == url@,
{
    let ghost v = infos_view(s@);
    let mut i: usize = 0;
    while i < upto
        invariant
            i <= upto,
            upto <= s.len(),
            v == infos_view(s@),
            forall|k: int| 0 <= k < i ==> (#[trigger] v[k]).0 != url@,
        decreases upto - i,
    {
        if s[i].url == *url {
            assert(v[i as int].0 == url@);
            return true;
        }
        i += 1;
    }
    false
}

fn any_hls(s: &Vec<StreamInfo>) -> (r: bool)
    ensures
        r == has_hls(infos_view(s@)),
{
    let ghost v = infos_view(s@);
    let mut i: usize = 0;
    while i < s.len()
        invariant
            i <= s.len(),
            v == infos_view(s@),
            forall|k: int| 0 <= k < i ==> !is_hls((#[trigger] v[k]).0),
        decreases s.len() - i,
    {
        if contains_str(&chars_of(s[i].url.as_str()), ".m3u8") {
            assert(is_hls(v[i as int].0));
            return true;
        }
        i += 1;
    }
    false
}

fn first_flv_exec(s: &Vec<StreamInfo>) -> (r: Option<String>)
    ensures
        opt_view(r) == first_flv(infos_view(s@)),
{
    let ghost v = infos_view(s@);
    let mut i: usize = 0;
    assert(v.skip(0) =~= v);
    while i < s.len()
        invariant
            i <= s.len(),
            v == infos_view(s@),
            first_flv(v) == first_flv(v.skip(i as int)),
        decreases s.len() - i,
    {
        assert(v.skip(i as int)[0] == v[i as int]);
        assert(v.skip(i as int).drop_first() =~= v.skip(i + 1));
        if contains_str(&chars_of(s[i].url.as_str()), ".flv") {
            return Some(s[i].url.clone());
        }
        i += 1;
    }
    assert(v.skip(i as int) =~= Seq::<(Seq<char>, Seq<char>, Option<i64>)>::empty());
    None
}

/// The stream list for a page whose state has no usable data: the page's
/// own HLS URL alone, else the error.
pub fn stream_urls_without_state(fallback_hls: Option<String>) -> (r: Result<Vec<StreamInfo>, RecorderError>)
    ensures
        match fallback_hls {
            Some(u) => r matches Ok(v) && infos_view(v@) == seq![(u@, "hls"@, None::<i64>)],
            None => r matches Err(RecorderError::ApiError { error }) && error@
                == "Failed to extract JSON data from page"@,
        },
{
    match fallback_hls {
        Some(u) => {
            let ghost uv = u@;
            let v = vec![StreamInfo { url: u, quality: String::from_str("hls"), bitrate: None }];
            assert(infos_view(v@) =~= seq![(uv, "hls"@, None::<i64>)]);
            Ok(v)
        },
        None => Err(
            RecorderError::ApiError { error: String::from_str("Failed to extract JSON data from page") },
        ),
    }
}

/// The streams of a page state (see `page_stream_urls`); `fallback_hls` is
/// the page's own HLS URL. The state must hold a live stream with play URLs.
pub fn stream_urls_from_state(fallback_hls: Option<String>, live: &LiveStreamResponse) -> (r: Result<
    Vec<StreamInfo>,
    RecorderError,
>)
    requires
        live.live_stream is Some,
        live.live_stream->0.play_urls is Some,
    ensures
        match page_stream_urls(opt_view(fallback_hls), live.live_stream->0.play_urls->0) {
            Ok(s) => r matches Ok(v) && infos_view(v@) == s,
            Err(m) => r matches Err(RecorderError::ApiError { error }) && error@ == m,
        },
{
    let play = match &live.live_stream {
        Some(ls) => match &ls.play_urls {
            Some(p) => p,
            None => {
                return Err(RecorderError::InvalidResponse);
            },
        },
        None => {
            return Err(RecorderError::InvalidResponse);
        },
    };
    let ghost all = (set_reps(play.h264) + set_reps(play.h265)).map_values(|r: Representation| rep_view(r));
    let ghost a264 = set_reps(play.h264).map_values(|r: Representation| rep_view(r));
    let ghost a265 = set_reps(play.h265).map_values(|r: Representation| rep_view(r));
    assert(all =~= a264 + a265);
    let mut sorted: Vec<StreamInfo> = Vec::new();
    assert(infos_view(sorted@) =~= crate::sorting::sort_by(Seq::empty(), higher_bitrate()));
    add_reps(&mut sorted, &play.h264, Ghost(Seq::empty()));
    assert(Seq::<(Seq<char>, Seq<char>, Option<i64>)>::empty() + a264 =~= a264);
    add_reps(&mut sorted, &play.h265, Ghost(a264));
    if sorted.len() == 0 {
        return Err(
            RecorderError::ApiError { error: String::from_str("No usable stream representations found") },
        );
    }
    let ghost sv = infos_view(sorted@);
    let mut kept: Vec<StreamInfo> = Vec::new();
    let mut i: usize = 0;
    assert(sv.take(0) =~= Seq::<(Seq<char>, Seq<char>, Option<i64>)>::empty());
    while i < sorted.len()
        invariant
            i <= sorted.len(),
            sv == infos_view(sorted@),
            infos_view(kept@) == first_urls(sv.take(i as int)),
        decreases sorted.len() - i,
    {
        let ghost t = sv.take(i + 1);
        assert(t.drop_last() =~= sv.take(i as int));
        assert(t.last() == sv[i as int]);
        let seen = url_seen(&sorted, i, &sorted[i].url);
        assert(seen == exists|k: int| 0 <= k < t.len() - 1 && (#[trigger] t[k]).0 == t.last().0) by {
            if seen {
                let k = choose|k: int| 0 <= k < i && (#[trigger] infos_view(sorted@)[k]).0 == sorted@[i as int].url@;
                assert(t[k] == sv[k]);
            }
            if exists|k: int| 0 <= k < t.len() - 1 && (#[trigger] t[k]).0 == t.last().0 {
                let k = choose|k: int| 0 <= k < t.len() - 1 && (#[trigger] t[k]).0 == t.last().0;
                assert(t[k] == sv[k]);
            }
        }
        if !seen {
            let ghost old_k = infos_view(kept@);
            let x = copy_info(&sorted[i]);
            kept.push(x);
            assert(infos_view(kept@) =~= old_k.push(sv[i as int]));
        }
        i += 1;
    }
    assert(sv.take(sorted.len() as int) =~= sv);
    let ghost u1 = infos_view(kept@);
    if !any_hls(&kept) {
        match &fallback_hls {
            Some(f) => {
                kept.insert(0, StreamInfo { url: f.clone(), quality: String::from_str("hls"), bitrate: None });
                assert(infos_view(kept@) =~= seq![(f@, "hls"@, None::<i64>)] + u1);
            },
            None => {},
        }
    }
    let ghost u2 = infos_view(kept@);
    let mut listed: Vec<StreamInfo> = Vec::new();
    let mut j: usize = 0;
    assert(u2.take(0) =~= Seq::<(Seq<char>, Seq<char>, Option<i64>)>::empty());
    while j < kept.len()
        invariant
            j <= kept.len(),
            u2 == infos_view(kept@),
            infos_view(listed@) == crate::sorting::sort_by(u2.take(j as int), listing_order()),
        decreases kept.len() - j,
    {
        let x = copy_info(&kept[j]);
        insert_info(&mut listed, x, true);
        assert(u2.take(j + 1).drop_last() =~= u2.take(j as int));
        assert(u2.take(j + 1).last() == u2[j as int]);
        j += 1;
    }
    assert(u2.take(kept.len() as int) =~= u2);
    let ghost u3 = infos_view(listed@);
    if !any_hls(&listed) {
        if let Some(f) = first_flv_exec(&listed) {
            let fv = chars_of(f.as_str());
            let from = chars_of(".flv");
            match find_chars(&fv, &from) {
                Some(k) => {
                    let mut g = slice_chars(&fv, 0, k);
                    append_str(&mut g, ".m3u8");
                    let rest = slice_chars(&fv, k + from.len(), fv.len());
                    append_chars(&mut g, &rest);
                    assert(g@ =~= replace_first(f@, ".flv"@, ".m3u8"@));
                    if !crate::text::chars_eq(&g, &fv) {
                        listed.insert(0, StreamInfo { url: string_of(&g), quality: String::from_str("hls"), bitrate: None });
                        assert(infos_view(listed@) =~= seq![(g@, "hls"@, None::<i64>)] + u3);
                    }
                },
                None => {},
            }
        }
    }
    Ok(listed)
}


proof fn listing_order_orders()
    ensures
        crate::sorting::strict_weak_order(listing_order()),
{
    let h = listing_order();
    assert forall|a: (Seq<char>, Seq<char>, Option<i64>), b: (Seq<char>, Seq<char>, Option<i64>)|
        #[trigger] h(a, b) implies !h(b, a) by {}
    assert forall|
        a: (Seq<char>, Seq<char>, Option<i64>),
        b: (Seq<char>, Seq<char>, Option<i64>),
        c: (Seq<char>, Seq<char>, Option<i64>),
    |
        #![trigger h(a, b), h(b, c)]
        !h(a, b) && !h(b, c) implies !h(a, c) by {}
}

/// The streams a page state lists come HLS playlists first, then higher
/// bitrates, then higher quality ranks: none stands behind one it must
/// precede in that order.
pub proof fn listed_streams_are_ordered(fallback: Option<Seq<char>>, play: PlayUrls)
    ensures
        page_stream_urls(fallback, play) matches Ok(s) ==> crate::sorting::ordered_by(s, listing_order()),
{
    let all = (set_reps(play.h264) + set_reps(play.h265)).map_values(|r: Representation| rep_view(r));
    if all.len() > 0 {
        let u1 = first_urls(crate::sorting::sort_by(all, higher_bitrate()));
        let u2 = match fallback {
            Some(f) => if !has_hls(u1) {
                seq![(f, "hls"@, None::<i64>)] + u1
            } else {
                u1
            },
            None => u1,
        };
        let u3 = crate::sorting::sort_by(u2, listing_order());
        listing_order_orders();
        crate::sorting::sort_by_orders(u2, listing_order());
        if !has_hls(u3) {
            match first_flv(u3) {
                Some(f) => {
                    let g = replace_first(f, ".flv"@, ".m3u8"@);
                    if g != f {
                        reveal_strlit(".flv");
                        reveal_strlit(".m3u8");
                        let k = find(f, ".flv"@)->0;
                        crate::text::lemma_find_from(f, ".flv"@, 0);
                        assert(g == f.take(k) + ".m3u8"@ + f.skip(k + 4));
                        assert(g.subrange(k, k + 5) =~= ".m3u8"@);
                        assert(crate::text::matches_at(g, ".m3u8"@, k));
                        crate::text::lemma_find_from(g, ".m3u8"@, 0);
                        assert(is_hls(g));
                        let s = seq![(g, "hls"@, None::<i64>)] + u3;
                        assert forall|i: int, j: int| 0 <= i < j < s.len() implies !(listing_order())(
                            #[trigger] s[j],
                            #[trigger] s[i],
                        ) by {
                            if i == 0 {
                                assert(s[j] == u3[j - 1]);
                                assert(!is_hls(u3[j - 1].0));
                            } else {
                                assert(s[i] == u3[i - 1] && s[j] == u3[j - 1]);
                            }
                        }
                    }
                },
                None => {},
            }
        }
    }
}


// ---------------------------------------------------------------------------
// Fetching the web page
// ---------------------------------------------------------------------------

/// The `Referer` a candidate page URL is requested with.
pub open spec fn web_referer_of(candidate: Seq<char>) -> Seq<char> {
    if contains(candidate, "www.kuaishou.com"@) {
        "https://www.kuaishou.com/"@
    } else {
        "https://live.kuaishou.com/"@
    }
}

pub fn web_referer(candidate: &str) -> (r: &'static str)
    ensures
        r@ == web_referer_of(candidate@),
{
    let c = chars_of(candidate);
    if contains_str(&c, "www.kuaishou.com") {
        "https://www.kuaishou.com/"
    } else {
        "https://live.kuaishou.com/"
    }
}

/// A page of at most this many bytes is a stub (a login wall or a redirect
/// notice): used only when no candidate gives a full page.
pub const SMALL_PAGE_BYTES: usize = 256;

/// The length of a text in bytes, as `str::len` reports it.
pub open spec fn byte_len(text: Seq<char>) -> usize {
    encode_utf8(text).len() as usize
}

/// The state of a walk over the candidate page URLs: the message of the last
/// failed response, and the last stub page with the URL it came from.
pub struct PageFetch {
    pub last_error: Option<String>,
    pub last_small: Option<(String, String)>,
}

/// A page and its final URL, as values.
pub open spec fn page_view(p: Option<(String, String)>) -> Option<(Seq<char>, Seq<char>)> {
    match p {
        Some((body, url)) => Some((body@, url@)),
        None => None,
    }
}

impl PageFetch {
    pub fn new() -> (r: PageFetch)
        ensures
            r.last_error is None,
            r.last_small is None,
    {
        PageFetch { last_error: None, last_small: None }
    }

    /// Takes one candidate's response (`success` for a 2xx status,
    /// `status_text` the status as shown, such as `404 Not Found`): a full
    /// page is the result; a failed response or a stub is remembered and the
    /// walk goes on to the next candidate.
    pub fn on_response(&mut self, success: bool, status_text: &str, body: String, final_url: String) -> (r:
        Option<(String, String)>)
        ensures
            !success ==> r is None && final(self).last_small == old(self).last_small
                && (final(self).last_error matches Some(e) && e@ == "Kuaishou web status: "@ + status_text@),
            success && byte_len(body@) <= SMALL_PAGE_BYTES ==> r is None
                && final(self).last_error == old(self).last_error
                && page_view(final(self).last_small) == Some((body@, final_url@)),
            success && byte_len(body@) > SMALL_PAGE_BYTES ==> page_view(r) == Some((body@, final_url@))
                && final(self).last_error == old(self).last_error
                && final(self).last_small == old(self).last_small,
    {
        if !success {
            let mut m = chars_of("Kuaishou web status: ");
            append_str(&mut m, status_text);
            self.last_error = Some(string_of(&m));
            return None;
        }
        if body.as_str().len() <= SMALL_PAGE_BYTES {
            self.last_small = Some((body, final_url));
            return None;
        }
        Some((body, final_url))
    }

    /// The outcome once every candidate was tried without a full page: the
    /// last stub if there was one, else the last failure, else a generic
    /// error.
    pub fn finish(self) -> (r: Result<(String, String), RecorderError>)
        ensures
            self.last_small is Some ==> (r matches Ok(p) && page_view(Some(p)) == page_view(self.last_small)),
            self.last_small is None ==> (r matches Err(RecorderError::ApiError { error }) && error@ == (
            match self.last_error {
                Some(e) => e@,
                None => "Failed to fetch Kuaishou web page"@,
            })),
    {
        match self.last_small {
            Some(p) => Ok(p),
            None => Err(
                RecorderError::ApiError {
                    error: match self.last_error {
                        Some(e) => e,
                        None => "Failed to fetch Kuaishou web page".to_string(),
                    },
                },
            ),
        }
    }
}


// ---------------------------------------------------------------------------
// QR login
// ---------------------------------------------------------------------------

/// Whether a QR login step's answer says the step is done: its `result` is
/// 1, or not a number at all, which counts as 1.
pub open spec fn qr_step_done(answer: Json) -> bool {
    match u64_member(answer, "result"@) {
        Some(n) => n == 1,
        None => true,
    }
}

/// After the scan check: `Some` pending status (code 1, no cookies) while the
/// code is not scanned yet, `None` to go on to the accept check.
pub fn qr_scan_pending(scan: &Json) -> (r: Option<QrStatus>)
    ensures
        r is None <==> qr_step_done(*scan),
        r matches Some(st) ==> st.code == 1 && st.cookies@.len() == 0,
{
    let result = match scan.get_u64("result") {
        Some(n) => n,
        None => 1,
    };
    if result != 1 {
        Some(QrStatus { code: 1, cookies: String::new() })
    } else {
        None
    }
}

/// What the accept check gave.
pub enum QrAccept {
    /// Not accepted yet: report this status.
    Pending(QrStatus),
    /// Accepted: the token for the login callback.
    Token(String),
}

/// After the accept check: pending (code 2) while the login is not accepted
/// yet, else the `qrToken` for the callback; an accepted answer without a
/// textual `qrToken` is an invalid value.
pub fn qr_accept_outcome(accept: &Json) -> (r: Result<QrAccept, RecorderError>)
    ensures
        !qr_step_done(*accept) ==> (r matches Ok(QrAccept::Pending(st)) && st.code == 2
            && st.cookies@.len() == 0),
        qr_step_done(*accept) ==> match str_member(*accept, "qrToken"@) {
            Some(t) => r matches Ok(QrAccept::Token(tok)) && tok@ == t,
            None => r matches Err(RecorderError::InvalidValue),
        },
{
    if qr_scan_pending(accept).is_some() {
        return Ok(QrAccept::Pending(QrStatus { code: 2, cookies: String::new() }));
    }
    match accept.get_str("qrToken") {
        Some(t) => Ok(QrAccept::Token(t)),
        None => Err(RecorderError::InvalidValue),
    }
}

/// The `name=value` parts of `set-cookie` headers, in order: what comes
/// before each header's first `;`; headers that are not visible text
/// (`None`) give nothing.
pub open spec fn header_parts(headers: Seq<Option<Seq<char>>>) -> Seq<Seq<char>>
    decreases headers.len(),
{
    if headers.len() == 0 {
        Seq::empty()
    } else {
        let rest = header_parts(headers.drop_last());
        match headers.last() {
            Some(h) => rest.push(before_char(h, ';')),
            None => rest,
        }
    }
}

/// The cookie parts of the login callback: the first header's part, then
/// every header's part, so that the first header's cookie comes twice.
pub open spec fn callback_cookie_parts(headers: Seq<Option<Seq<char>>>) -> Seq<Seq<char>> {
    let first = if headers.len() > 0 && headers[0] is Some {
        seq![before_char(headers[0]->0, ';')]
    } else {
        Seq::empty()
    };
    first + header_parts(headers)
}

/// The optional headers as values.
pub open spec fn headers_view(headers: Seq<Option<String>>) -> Seq<Option<Seq<char>>> {
    headers.map_values(|h: Option<String>| opt_view(h))
}

/// The final status of a QR login from the callback's `set-cookie` headers
/// (`None` for a header that is not visible text): code 0 with the cookie
/// parts joined by `; `, or an error when that leaves no cookie text.
pub fn login_cookies(set_cookie: &Vec<Option<String>>) -> (r: Result<QrStatus, RecorderError>)
    ensures
        ({
            let c = join_with(callback_cookie_parts(headers_view(set_cookie@)), "; "@);
            &&& c.len() > 0 ==> (r matches Ok(st) && st.code == 0 && st.cookies@ == c)
            &&& c.len() == 0 ==> (r matches Err(RecorderError::ApiError { error }) && error@
                == "Failed to extract cookies from response"@)
        }),
{
    let ghost hv = headers_view(set_cookie@);
    let mut parts: Vec<Vec<char>> = Vec::new();
    if set_cookie.len() > 0 {
        if let Some(h) = &set_cookie[0] {
            let c = chars_of(h.as_str());
            parts.push(before_char_exec(&c, ';'));
        }
    }
    let ghost first = vecs_view(parts@);
    proof {
        assert(first + header_parts(hv.take(0)) =~= first);
    }
    let mut i: usize = 0;
    while i < set_cookie.len()
        invariant
            i <= set_cookie.len(),
            hv == headers_view(set_cookie@),
            first == (if hv.len() > 0 && hv[0] is Some {
                seq![before_char(hv[0]->0, ';')]
            } else {
                Seq::<Seq<char>>::empty()
            }),
            vecs_view(parts@) == first + header_parts(hv.take(i as int)),
        decreases set_cookie.len() - i,
    {
        proof {
            assert(hv.take(i + 1).drop_last() =~= hv.take(i as int));
            assert(hv.take(i + 1).last() == hv[i as int]);
            assert(hv[i as int] == opt_view(set_cookie@[i as int]));
            assert(header_parts(hv.take(i + 1)) == (match hv[i as int] {
                Some(h) => header_parts(hv.take(i as int)).push(before_char(h, ';')),
                None => header_parts(hv.take(i as int)),
            }));
        }
        if let Some(h) = &set_cookie[i] {
            let c = chars_of(h.as_str());
            let part = before_char_exec(&c, ';');
            let ghost before = vecs_view(parts@);
            parts.push(part);
            proof {
                assert(vecs_view(parts@) =~= before.push(part@));
                assert(vecs_view(parts@) =~= first + header_parts(hv.take(i + 1)));
            }
        } else {
            proof {
                assert(vecs_view(parts@) =~= first + header_parts(hv.take(i + 1)));
            }
        }
        i += 1;
    }
    proof {
        assert(hv.take(hv.len() as int) =~= hv);
    }
    let cookies = join_exec(&parts, "; ");
    if cookies.len() == 0 {
        return Err(RecorderError::ApiError { error: "Failed to extract cookies from response".to_string() });
    }
    Ok(QrStatus { code: 0, cookies: string_of(&cookies) })
}


// ---------------------------------------------------------------------------
// The logged-in user
// ---------------------------------------------------------------------------

/// The member names that hold a user's id, name and avatar, in the order
/// they are tried.
pub open spec fn user_id_keys() -> Seq<Seq<char>> {
    seq!["user_id"@, "userId"@, "userIdStr"@, "uid"@]
}

pub open spec fn user_name_keys() -> Seq<Seq<char>> {
    seq!["user_name"@, "userName"@, "nickname"@, "nickName"@]
}

pub open spec fn user_avatar_keys() -> Seq<Seq<char>> {
    seq!["headurl"@, "headUrl"@, "avatar"@, "avatarUrl"@, "portrait"@, "profilePic"@]
}

/// The user an object describes with an id under one of `ids` and a name
/// under one of `names` (see `string_field`), its avatar empty when it has
/// none.
pub open spec fn keyed_user(v: Json, ids: Seq<Seq<char>>, names: Seq<Seq<char>>) -> Option<
    (Seq<char>, Seq<char>, Seq<char>),
> {
    match (string_field(v, ids), string_field(v, names)) {
        (Some(id), Some(name)) => Some((id, name, or_empty(string_field(v, user_avatar_keys())))),
        _ => None,
    }
}

/// The user an object describes: by the user-specific names first, then by
/// a plain `id` and `name`.
pub open spec fn object_user(v: Json) -> Option<(Seq<char>, Seq<char>, Seq<char>)> {
    match keyed_user(v, user_id_keys(), user_name_keys()) {
        Some(u) => Some(u),
        None => keyed_user(v, seq!["id"@], seq!["name"@]),
    }
}

/// The first user found in a page state value, depth first: an object's own
/// user before those of its members, in order.
pub open spec fn found_user(value: Json) -> Option<(Seq<char>, Seq<char>, Seq<char>)>
    decreases value,
{
    match value {
        Json::Object(m) => match object_user(value) {
            Some(u) => Some(u),
            None => member_user(m@),
        },
        Json::Array(items) => item_user(items@),
        _ => None,
    }
}

pub open spec fn member_user(m: Seq<(String, Json)>) -> Option<(Seq<char>, Seq<char>, Seq<char>)>
    decreases m,
{
    if m.len() == 0 {
        None
    } else {
        match found_user(m[0].1) {
            Some(u) => Some(u),
            None => member_user(m.drop_first()),
        }
    }
}

pub open spec fn item_user(items: Seq<Json>) -> Option<(Seq<char>, Seq<char>, Seq<char>)>
    decreases items,
{
    if items.len() == 0 {
        None
    } else {
        match found_user(items[0]) {
            Some(u) => Some(u),
            None => item_user(items.drop_first()),
        }
    }
}

fn keyed_user_exec(v: &Json, ids: &[&str], names: &[&str]) -> (r: Option<crate::UserInfo>)
    ensures
        opt_user_view(r) == keyed_user(*v, ids@.map_values(|s: &str| s@), names@.map_values(|s: &str| s@)),
{
    let avatar_names: Vec<&'static str> = vec!["headurl", "headUrl", "avatar", "avatarUrl", "portrait", "profilePic"];
    assert(avatar_names@.map_values(|s: &str| s@) =~= user_avatar_keys());
    match (get_string_field(v, ids), get_string_field(v, names)) {
        (Some(user_id), Some(user_name)) => {
            let user_avatar = match get_string_field(v, avatar_names.as_slice()) {
                Some(a) => a,
                None => String::new(),
            };
            Some(crate::UserInfo { user_id, user_name, user_avatar })
        },
        _ => None,
    }
}

fn object_user_exec(v: &Json) -> (r: Option<crate::UserInfo>)
    ensures
        opt_user_view(r) == object_user(*v),
{
    let ids: Vec<&'static str> = vec!["user_id", "userId", "userIdStr", "uid"];
    let names: Vec<&'static str> = vec!["user_name", "userName", "nickname", "nickName"];
    assert(ids@.map_values(|s: &str| s@) =~= user_id_keys());
    assert(names@.map_values(|s: &str| s@) =~= user_name_keys());
    if let Some(u) = keyed_user_exec(v, ids.as_slice(), names.as_slice()) {
        return Some(u);
    }
    let id: Vec<&'static str> = vec!["id"];
    let name: Vec<&'static str> = vec!["name"];
    assert(id@.map_values(|s: &str| s@) =~= seq!["id"@]);
    assert(name@.map_values(|s: &str| s@) =~= seq!["name"@]);
    keyed_user_exec(v, id.as_slice(), name.as_slice())
}

/// The logged-in user found in the page state (see `found_user`).
pub fn find_user_info(value: &Json) -> (r: Option<crate::UserInfo>)
    ensures
        opt_user_view(r) == found_user(*value),
    decreases value,
{
    match value {
        Json::Object(m) => {
            if let Some(u) = object_user_exec(value) {
                return Some(u);
            }
            let mut i: usize = 0;
            assert(m@.skip(0) =~= m@);
            while i < m.len()
                invariant
                    i <= m.len(),
                    *value == Json::Object(*m),
                    object_user(*value) is None,
                    found_user(*value) == member_user(m@.skip(i as int)),
                decreases m.len() - i,
            {
                assert(m@.skip(i as int)[0] == m@[i as int]);
                assert(m@.skip(i as int).drop_first() =~= m@.skip(i + 1));
                proof {
                    assert(decreases_to!(*value => m@[i as int].1));
                }
                if let Some(u) = find_user_info(&m[i].1) {
                    return Some(u);
                }
                i += 1;
            }
            assert(m@.skip(i as int) =~= Seq::<(String, Json)>::empty());
            None
        },
        Json::Array(items) => {
            let mut i: usize = 0;
            assert(items@.skip(0) =~= items@);
            while i < items.len()
                invariant
                    i <= items.len(),
                    *value == Json::Array(*items),
                    found_user(*value) == item_user(items@.skip(i as int)),
                decreases items.len() - i,
            {
                assert(items@.skip(i as int)[0] == items@[i as int]);
                assert(items@.skip(i as int).drop_first() =~= items@.skip(i + 1));
                proof {
                    assert(decreases_to!(*value => items@[i as int]));
                }
                if let Some(u) = find_user_info(&items[i]) {
                    return Some(u);
                }
                i += 1;
            }
            assert(items@.skip(i as int) =~= Seq::<Json>::empty());
            None
        },
        _ => None,
    }
}

/// The pattern that finds the user object in the page state's profile when
/// no user is found by name.
pub const PROFILE_USER_PATTERN: &'static str = "(?s)\"profile\":\\{\"ownerCount\".*?\"user\":(.*?),\"currentWork\"";

/// The error given when no usable user is found in the page.
pub open spec fn no_user_message() -> Seq<char> {
    "Failed to extract user data - please check if cookies are valid"@
}

/// The user object text in the page state's profile, for the fallback
/// reading of the logged-in user.
pub fn profile_user_text(json_str: &str) -> (r: Result<String, RecorderError>)
    ensures
        match regex_capture(PROFILE_USER_PATTERN@, json_str@, 1) {
            Some(t) => r matches Ok(u) && u@ == t,
            None => r matches Err(RecorderError::ApiError { error }) && error@ == no_user_message(),
        },
{
    match capture(PROFILE_USER_PATTERN, json_str, 1) {
        Some(t) => Ok(t),
        None => Err(
            RecorderError::ApiError {
                error: "Failed to extract user data - please check if cookies are valid".to_string(),
            },
        ),
    }
}

/// The logged-in user read from the profile's user object: usable only with
/// both an id and a name.
pub fn checked_profile_user(user_id: String, user_name: String, head_url: String) -> (r: Result<
    crate::UserInfo,
    RecorderError,
>)
    ensures
        (user_id@.len() > 0 && user_name@.len() > 0) ==> (r matches Ok(u) && user_view(u) == (
            user_id@,
            user_name@,
            head_url@,
        )),
        !(user_id@.len() > 0 && user_name@.len() > 0) ==> (r matches Err(RecorderError::ApiError { error })
            && error@ == no_user_message()),
{
    if user_id.as_str().is_empty() || user_name.as_str().is_empty() {
        return Err(
            RecorderError::ApiError {
                error: "Failed to extract user data - please check if cookies are valid".to_string(),
            },
        );
    }
    Ok(crate::UserInfo { user_id, user_name, user_avatar: head_url })
}


/// The QR code of a login start answer: its `qrLoginToken`,
/// `qrLoginSignature` and `imageData`, all required as text.
pub fn qr_info_from_answer(data: &Json) -> (r: Result<QrInfo, RecorderError>)
    ensures
        match (
            str_member(*data, "qrLoginToken"@),
            str_member(*data, "qrLoginSignature"@),
            str_member(*data, "imageData"@),
        ) {
            (Some(t), Some(sig), Some(img)) => r matches Ok(q) && q.qr_login_token@ == t
                && q.qr_login_signature@ == sig && q.image_data@ == img,
            _ => r matches Err(RecorderError::InvalidValue),
        },
{
    let token = match data.get_str("qrLoginToken") {
        Some(t) => t,
        None => return Err(RecorderError::InvalidValue),
    };
    let signature = match data.get_str("qrLoginSignature") {
        Some(t) => t,
        None => return Err(RecorderError::InvalidValue),
    };
    let image = match data.get_str("imageData") {
        Some(t) => t,
        None => return Err(RecorderError::InvalidValue),
    };
    Ok(QrInfo { qr_login_token: token, qr_login_signature: signature, image_data: image })
}


/// The pattern that cuts the `liveStream` object out of a page state text:
/// from `{"liveStream"` up to the `,"gameInfo"` that follows it.
pub const LIVE_STREAM_PATTERN: &'static str = "(?s)(\\{\"liveStream\".*?),\"gameInfo\"";

/// The text of the live data cut out of a page state (see
/// `LIVE_STREAM_PATTERN`), closed with the `}` that the cut leaves off.
pub fn live_stream_text(state: &str) -> (r: Option<String>)
    ensures
        opt_view(r) == match regex_capture(LIVE_STREAM_PATTERN@, state@, 1) {
            Some(c) => Some(c + "}"@),
            None => None,
        },
{
    match capture(LIVE_STREAM_PATTERN, state, 1) {
        Some(c) => {
            let mut v = chars_of(c.as_str());
            append_str(&mut v, "}");
            Some(string_of(&v))
        },
        None => None,
    }
}

} // verus!
