//! The calls this library makes into other crates and into parts of std that
//! carry no specification of their own. Each function below is trusted: its
//! contract states what the called function's documentation or source shows,
//! and nothing in this crate proves it.
use vstd::prelude::*;

use crate::json::Json;
use crate::text::contains;
use base64::Engine;
use chrono::TimeZone;
use rand::seq::IndexedRandom;

verus! {

// ---------------------------------------------------------------------------
// URLs (the `url` crate)
// ---------------------------------------------------------------------------

/// The parts of a URL that the parsers read.
pub struct ParsedUrl {
    pub scheme: String,
    pub host: Option<String>,
    pub path: String,
    pub query: Option<String>,
    /// `None` for a URL that cannot be a base (no path segments).
    pub path_segments: Option<Vec<String>>,
}

/// The mathematical value of a [`ParsedUrl`].
pub struct UrlParts {
    pub scheme: Seq<char>,
    pub host: Option<Seq<char>>,
    pub path: Seq<char>,
    pub query: Option<Seq<char>>,
    pub path_segments: Option<Seq<Seq<char>>>,
}

pub open spec fn opt_view(o: Option<String>) -> Option<Seq<char>> {
    match o {
        Some(s) => Some(s@),
        None => None,
    }
}

pub open spec fn strings_view(v: Seq<String>) -> Seq<Seq<char>> {
    v.map_values(|s: String| s@)
}

impl View for ParsedUrl {
    type V = UrlParts;

    open spec fn view(&self) -> UrlParts {
        UrlParts {
            scheme: self.scheme@,
            host: opt_view(self.host),
            path: self.path@,
            query: opt_view(self.query),
            path_segments: match self.path_segments {
                Some(v) => Some(strings_view(v@)),
                None => None,
            },
        }
    }
}

/// What `url::Url::parse` makes of a string (WHATWG URL parsing), read out
/// as `scheme()`, `host_str()`, `path()`, `query()` and `path_segments()`,
/// or the text of the parse error.
pub uninterp spec fn parsed_url(input: Seq<char>) -> Result<UrlParts, Seq<char>>;

/// `url::Url::parse`, with the parsed URL converted to its parts and an
/// error converted to its `Display` text. The result is named by
/// `parsed_url` and depends on the input alone; the WHATWG parsing rules
/// themselves are not restated here.
#[verifier::external_body]
pub fn parse_url(input: &str) -> (r: Result<ParsedUrl, String>)
    ensures
        match r {
            Ok(u) => parsed_url(input@) == Ok::<UrlParts, Seq<char>>(u@),
            Err(e) => parsed_url(input@) == Err::<UrlParts, Seq<char>>(e@),
        },
{
    url::Url::parse(input).map(
        |u| ParsedUrl {
            scheme: u.scheme().to_string(),
            host: u.host_str().map(|h| h.to_string()),
            path: u.path().to_string(),
            query: u.query().map(|q| q.to_string()),
            path_segments: u.path_segments().map(|s| s.map(|x| x.to_string()).collect()),
        },
    ).map_err(|e| e.to_string())
}

/// The serialization of `url::Url::join(input)` on the parse of `base`, or
/// `None` when either step fails.
pub uninterp spec fn joined_url(base: Seq<char>, input: Seq<char>) -> Option<Seq<char>>;

/// `url::Url::join` (after `Url::parse` of the base), serialized with
/// `to_string`. The result is named by `joined_url`; RFC 3986 reference
/// resolution is not restated here.
#[verifier::external_body]
pub fn join_url(base: &str, input: &str) -> (r: Option<String>)
    ensures
        opt_view(r) == joined_url(base@, input@),
{
    url::Url::parse(base).ok().and_then(|b| b.join(input).ok()).map(|u| u.to_string())
}

/// The name/value pairs that `application/x-www-form-urlencoded` decoding
/// yields for a query string, in order.
pub uninterp spec fn form_decoded(input: Seq<char>) -> Seq<(Seq<char>, Seq<char>)>;

/// `form_urlencoded::parse` on the bytes of `input`, each pair copied into
/// owned strings. The pairs are named by `form_decoded`; percent-decoding and
/// `+` handling are not restated here.
#[verifier::external_body]
pub fn form_pairs(input: &str) -> (r: Vec<(String, String)>)
    ensures
        r@.map_values(|p: (String, String)| (p.0@, p.1@)) == form_decoded(input@),
{
    url::form_urlencoded::parse(input.as_bytes()).map(
        |(k, v)| (k.into_owned(), v.into_owned()),
    ).collect()
}

// ---------------------------------------------------------------------------
// Regular expressions (the `regex` crate)
// ---------------------------------------------------------------------------

/// The text of capture group `group` in the leftmost match of `pattern` in
/// `text`, or `None` when the pattern does not compile, does not match, or
/// the group did not take part in the match.
pub uninterp spec fn regex_capture(pattern: Seq<char>, text: Seq<char>, group: nat) -> Option<
    Seq<char>,
>;

/// `regex::Regex::new(pattern)` followed by `captures(text)` and `get(group)`.
/// The result is named by `regex_capture`. The regex crate documents that a
/// capture is a substring of the haystack, which is the one fact stated.
#[verifier::external_body]
pub fn capture(pattern: &str, text: &str, group: usize) -> (r: Option<String>)
    ensures
        opt_view(r) == regex_capture(pattern@, text@, group as nat),
        r matches Some(c) ==> contains(text@, c@),
{
    regex::Regex::new(pattern).ok().and_then(
        |re| re.captures(text).and_then(|c| c.get(group).map(|m| m.as_str().to_string())),
    )
}

// ---------------------------------------------------------------------------
// JSON string literals (the `serde_json` crate)
// ---------------------------------------------------------------------------

/// The text that a JSON document consisting of one string literal denotes,
/// or `None` when `text` is not such a document.
pub uninterp spec fn json_string_literal(text: Seq<char>) -> Option<Seq<char>>;

/// `serde_json::from_str::<String>(text).ok()`. The result is named by
/// `json_string_literal`; JSON's escape rules are not restated here.
#[verifier::external_body]
pub fn parse_json_string(text: &str) -> (r: Option<String>)
    ensures
        opt_view(r) == json_string_literal(text@),
{
    serde_json::from_str::<String>(text).ok()
}

/// A JSON value as `serde_json` holds it; the library reads it only after
/// `json_of_value` has copied it into its own `Json`.
#[verifier::external_type_specification]
#[verifier::external_body]
pub struct ExJsonValue(serde_json::Value);

/// What `serde_json::from_str::<serde_json::Value>` makes of a JSON text,
/// copied into the library's `Json` (numbers that fit a `u64` as `PosInt`,
/// other integers that fit an `i64` as `NegInt`, other numbers as `Float`
/// with their text; object members in the order its map keeps), or the `Display`
/// text of the parse error.
pub uninterp spec fn json_parsed(text: Seq<char>) -> Result<Json, Seq<char>>;

/// `serde_json::from_str::<serde_json::Value>(text)`, the value copied into
/// `Json` by `json_of_value` and the error converted to its `Display` text.
/// The result is named by `json_parsed`; JSON's grammar is not restated.
#[verifier::external_body]
pub fn parse_json(text: &str) -> (r: Result<Json, String>)
    ensures
        match r {
            Ok(v) => json_parsed(text@) == Ok::<Json, Seq<char>>(v),
            Err(e) => json_parsed(text@) == Err::<Json, Seq<char>>(e@),
        },
{
    serde_json::from_str::<serde_json::Value>(text).map(|v| json_of_value(&v)).map_err(|e| e.to_string())
}

/// The first JSON value a text starts with (after white space), as
/// `serde_json`'s streaming deserializer reads it into a
/// `serde_json::Value` and copied into `Json` as for `json_parsed`; what
/// follows that value is not read. `None` when no value can be read there.
pub uninterp spec fn json_first_parsed(text: Seq<char>) -> Option<Json>;

/// `serde_json::Value::deserialize` on `serde_json::Deserializer::from_str`
/// (the first value of the text; the rest is not read), copied by
/// `json_of_value`. The result is named by `json_first_parsed`.
#[verifier::external_body]
pub fn parse_first_json(text: &str) -> (r: Option<Json>)
    ensures
        r == json_first_parsed(text@),
{
    let mut d = serde_json::Deserializer::from_str(text);
    <serde_json::Value as serde::Deserialize>::deserialize(&mut d).ok().map(|v| json_of_value(&v))
}

/// The copy of a `serde_json::Value` into `Json`, variant by variant; a
/// number goes to the first of `as_u64`, `as_i64` and its text that applies.
/// It is part of `parse_json` and `parse_first_json`, whose results
/// `json_parsed` and `json_first_parsed` name.
#[verifier::external_body]
fn json_of_value(v: &serde_json::Value) -> Json {
    match v {
        serde_json::Value::Null => Json::Null,
        serde_json::Value::Bool(b) => Json::Bool(*b),
        serde_json::Value::Number(n) => n.as_u64().map(Json::PosInt).or_else(|| n.as_i64().map(Json::NegInt))
            .unwrap_or_else(|| Json::Float(n.to_string())),
        serde_json::Value::String(s) => Json::Str(s.clone()),
        serde_json::Value::Array(items) => Json::Array(items.iter().map(json_of_value).collect()),
        serde_json::Value::Object(m) => Json::Object(m.iter().map(|(k, x)| (k.clone(), json_of_value(x))).collect()),
    }
}

// ---------------------------------------------------------------------------
// Digests and encodings
// ---------------------------------------------------------------------------

/// The lower-case hexadecimal MD5 digest of the UTF-8 bytes of `data`.
pub uninterp spec fn md5_hex_digest(data: Seq<char>) -> Seq<char>;

/// `format!("{:x}", md5::compute(data))`. The digest is named by
/// `md5_hex_digest`; the crate formats its 16 bytes as two hexadecimal
/// digits each, so the result has 32 characters.
#[verifier::external_body]
pub fn md5_hex(data: &str) -> (r: String)
    ensures
        r@ == md5_hex_digest(data@),
        r@.len() == 32,
{
    format!("{:x}", md5::compute(data.as_bytes()))
}

/// Whether a character may not stand in a file name: `/ ? < > \ : * | "`
/// and the control characters U+0000 to U+001F and U+0080 to U+009F.
pub open spec fn file_name_unsafe(c: char) -> bool {
    c == '/' || c == '?' || c == '<' || c == '>' || c == '\\' || c == ':' || c == '*' || c == '|'
        || c == '"' || (c as u32) <= 0x1f || (0x80 <= (c as u32) && (c as u32) <= 0x9f)
}

/// A name with the characters that may not stand in a file name removed.
pub open spec fn without_unsafe(name: Seq<char>) -> Seq<char>
    decreases name.len(),
{
    if name.len() == 0 {
        Seq::empty()
    } else {
        let rest = without_unsafe(name.drop_last());
        if file_name_unsafe(name.last()) {
            rest
        } else {
            rest.push(name.last())
        }
    }
}

/// Whether a name is one or more dots only (`.`, `..`, ...).
pub open spec fn all_dots(name: Seq<char>) -> bool {
    name.len() > 0 && forall|i: int| 0 <= i < name.len() ==> name[i] == '.'
}

/// The name that sanitizing gives before its platform-specific steps: the
/// unsafe characters removed, and a name of dots only emptied.
pub open spec fn file_name_core(name: Seq<char>) -> Seq<char> {
    let t = without_unsafe(name);
    if all_dots(t) {
        Seq::empty()
    } else {
        t
    }
}

/// Whether `s` equals the lower-case ASCII word `w`, ignoring ASCII case.
pub open spec fn ascii_ci_eq(s: Seq<char>, w: Seq<char>) -> bool {
    s.len() == w.len() && forall|i: int|
        0 <= i < s.len() ==> (s[i] == w[i] || (s[i] as u32) + 32 == (w[i] as u32))
}

/// A Windows device name: `con`, `prn`, `aux`, `nul`, or `com` or `lpt` and
/// one digit, in any case.
pub open spec fn device_stem(s: Seq<char>) -> bool {
    ||| ascii_ci_eq(s, "con"@)
    ||| ascii_ci_eq(s, "prn"@)
    ||| ascii_ci_eq(s, "aux"@)
    ||| ascii_ci_eq(s, "nul"@)
    ||| (s.len() == 4 && (ascii_ci_eq(s.take(3), "com"@) || ascii_ci_eq(s.take(3), "lpt"@)) && '0' <= s[3]
        <= '9')
}

/// A name that Windows reserves: a device name, alone or followed by `.`
/// and anything.
pub open spec fn windows_reserved_name(s: Seq<char>) -> bool {
    exists|k: int| 3 <= k <= 4 && k <= s.len() && #[trigger] device_stem(s.take(k)) && (k == s.len() || s[k]
        == '.')
}

/// A name that every platform's sanitizing keeps as it is: not reserved on
/// Windows, not ending in a dot or a space, and at most 255 UTF-8 bytes.
pub open spec fn portable_file_name(s: Seq<char>) -> bool {
    &&& !windows_reserved_name(s)
    &&& !(s.len() > 0 && (s.last() == '.' || s.last() == ' '))
    &&& vstd::utf8::encode_utf8(s).len() <= 255
}

/// `sanitize_filename::sanitize(name)`. The crate removes each character
/// that may not stand in a file name, empties a name made only of dots
/// (this is `file_name_core`), and then, on Windows only, empties a reserved
/// device name and removes trailing dots and spaces, and finally cuts the
/// name to 255 bytes at a character boundary. Since the Windows steps depend
/// on the platform, the result is not named; what holds on every platform is
/// stated: the result is a prefix of the core name, equal to it when the
/// core name is portable, free of unsafe characters, and at most 255 bytes.
#[verifier::external_body]
pub fn sanitize_file_name(name: &str) -> (r: String)
    ensures
        r@.is_prefix_of(file_name_core(name@)),
        portable_file_name(file_name_core(name@)) ==> r@ == file_name_core(name@),
        forall|i: int| 0 <= i < r@.len() ==> !file_name_unsafe(#[trigger] r@[i]),
        vstd::utf8::encode_utf8(r@).len() <= 255,
{
    sanitize_filename::sanitize(name)
}

/// Whether URI percent-encoding keeps a character as it is: ASCII letters
/// and digits and `-`, `.`, `_`, `~`.
pub open spec fn uri_unreserved(c: char) -> bool {
    ('a' <= c <= 'z') || ('A' <= c <= 'Z') || ('0' <= c <= '9') || c == '-' || c == '.' || c == '_'
        || c == '~'
}

/// An upper-case hexadecimal digit.
pub open spec fn hex_upper(d: int) -> char {
    if d < 10 {
        (('0' as int) + d) as char
    } else {
        (('A' as int) + d - 10) as char
    }
}

/// Bytes written as `%XX` each, in upper-case hexadecimal.
pub open spec fn pct_bytes(bs: Seq<u8>) -> Seq<char>
    decreases bs.len(),
{
    if bs.len() == 0 {
        Seq::empty()
    } else {
        seq!['%', hex_upper(bs[0] as int / 16), hex_upper(bs[0] as int % 16)] + pct_bytes(bs.drop_first())
    }
}

/// A text percent-encoded for any part of a URI: each character that is not
/// unreserved is written as the `%XX` of each of its UTF-8 bytes.
pub open spec fn uri_encoded(s: Seq<char>) -> Seq<char>
    decreases s.len(),
{
    if s.len() == 0 {
        Seq::empty()
    } else {
        (if uri_unreserved(s[0]) {
            seq![s[0]]
        } else {
            pct_bytes(vstd::utf8::encode_utf8(seq![s[0]]))
        }) + uri_encoded(s.drop_first())
    }
}

/// `pct_str::PctString::encode(s.chars(), UriReserved::Any)`. The crate's
/// source encodes every character that is not unreserved (and `%`, which is
/// not) as `%XX` for each of its UTF-8 bytes, upper-case, which is what
/// `uri_encoded` states.
#[verifier::external_body]
pub fn pct_encode(s: &str) -> (r: String)
    ensures
        r@ == uri_encoded(s@),
{
    pct_str::PctString::encode(s.chars(), pct_str::UriReserved::Any).into_string()
}

/// The bytes that the standard base64 alphabet (with padding) decodes the
/// UTF-8 bytes of `input` to, or the text of the decoding error.
pub uninterp spec fn base64_decoded(input: Seq<char>) -> Result<Seq<u8>, Seq<char>>;

/// `base64::engine::general_purpose::STANDARD.decode`, with an error
/// converted to its `Display` text. The result is named by `base64_decoded`.
#[verifier::external_body]
pub fn base64_decode(input: &str) -> (r: Result<Vec<u8>, String>)
    ensures
        match r {
            Ok(v) => base64_decoded(input@) == Ok::<Seq<u8>, Seq<char>>(v@),
            Err(e) => base64_decoded(input@) == Err::<Seq<u8>, Seq<char>>(e@),
        },
{
    base64::engine::general_purpose::STANDARD.decode(input.as_bytes()).map_err(|e| e.to_string())
}

/// The value of a hexadecimal digit byte (either case).
pub open spec fn hex_digit_value(b: u8) -> Option<u8> {
    if 48 <= b <= 57 {
        Some((b - 48) as u8)
    } else if 65 <= b <= 70 {
        Some((b - 55) as u8)
    } else if 97 <= b <= 102 {
        Some((b - 87) as u8)
    } else {
        None
    }
}

/// Percent-decoding of bytes: each `%` followed by two hexadecimal digits
/// becomes the byte they spell; a `%` not followed by two of them is kept,
/// with what follows it; every other byte is kept (`+` too).
pub open spec fn pct_decoded_bytes(b: Seq<u8>) -> Seq<u8>
    decreases b.len(),
{
    if b.len() == 0 {
        Seq::empty()
    } else if b[0] == 37 {
        if b.len() < 3 {
            b
        } else {
            match (hex_digit_value(b[1]), hex_digit_value(b[2])) {
                (Some(h), Some(l)) => seq![(h * 16 + l) as u8] + pct_decoded_bytes(b.subrange(3, b.len() as int)),
                (Some(_), None) => seq![37u8, b[1]] + pct_decoded_bytes(b.subrange(2, b.len() as int)),
                _ => seq![37u8] + pct_decoded_bytes(b.subrange(1, b.len() as int)),
            }
        }
    } else {
        seq![b[0]] + pct_decoded_bytes(b.drop_first())
    }
}

/// The text that percent-decoding `input` gives: its UTF-8 bytes decoded
/// (see `pct_decoded_bytes`) and read as UTF-8, or the text of the error
/// when they are not UTF-8.
pub open spec fn percent_decoded(input: Seq<char>) -> Result<Seq<char>, Seq<char>> {
    let b = pct_decoded_bytes(vstd::utf8::encode_utf8(input));
    if vstd::utf8::valid_utf8(b) {
        Ok(vstd::utf8::decode_utf8(b))
    } else {
        Err(utf8_error_text(b))
    }
}

/// `urlencoding::decode`, with an error converted to its `Display` text: the
/// crate's source decodes each `%XX` (two hexadecimal digits of either case)
/// and keeps every other byte, then reads the bytes with `String::from_utf8`,
/// whose error text is `utf8_error_text`; this is `percent_decoded`.
#[verifier::external_body]
pub fn percent_decode(input: &str) -> (r: Result<String, String>)
    ensures
        match r {
            Ok(v) => percent_decoded(input@) == Ok::<Seq<char>, Seq<char>>(v@),
            Err(e) => percent_decoded(input@) == Err::<Seq<char>, Seq<char>>(e@),
        },
{
    urlencoding::decode(input).map(|s| s.into_owned()).map_err(|e| e.to_string())
}

/// The `Display` text of the error that `String::from_utf8` reports for
/// invalid bytes.
pub uninterp spec fn utf8_error_text(bytes: Seq<u8>) -> Seq<char>;

/// `String::from_utf8`: documented to succeed exactly on valid UTF-8, which
/// it then decodes; an error is converted to its `Display` text, named by
/// `utf8_error_text`.
#[verifier::external_body]
pub fn utf8_string(bytes: Vec<u8>) -> (r: Result<String, String>)
    ensures
        r is Ok <==> vstd::utf8::valid_utf8(bytes@),
        match r {
            Ok(s) => s@ == vstd::utf8::decode_utf8(bytes@),
            Err(e) => e@ == utf8_error_text(bytes@),
        },
{
    String::from_utf8(bytes).map_err(|e| e.to_string())
}

/// The text that `String::from_utf8_lossy` makes of `bytes`.
pub uninterp spec fn lossy_text(bytes: Seq<u8>) -> Seq<char>;

/// `String::from_utf8_lossy(bytes).into_owned()`. Its result is named by
/// `lossy_text`; the documentation states that valid UTF-8 is decoded as
/// it is (invalid sequences become U+FFFD, which is not restated here).
#[verifier::external_body]
pub fn utf8_lossy(bytes: &[u8]) -> (r: String)
    ensures
        r@ == lossy_text(bytes@),
        vstd::utf8::valid_utf8(bytes@) ==> r@ == vstd::utf8::decode_utf8(bytes@),
{
    String::from_utf8_lossy(bytes).into_owned()
}

/// The text that `str::escape_debug` makes of a string.
pub uninterp spec fn debug_escaped(text: Seq<char>) -> Seq<char>;

/// `text.escape_debug().to_string()`. The result is named by
/// `debug_escaped`; the escaping rules are not restated here.
#[verifier::external_body]
pub fn escape_debug(text: &str) -> (r: String)
    ensures
        r@ == debug_escaped(text@),
{
    text.escape_debug().to_string()
}

/// Pairs as values.
pub open spec fn pairs_view(pairs: Seq<(String, String)>) -> Seq<(Seq<char>, Seq<char>)> {
    pairs.map_values(|p: (String, String)| (p.0@, p.1@))
}

/// The serialization of the URL `base` parses to, with each pair appended
/// to its query by `append_pair`; `None` when `base` does not parse.
pub uninterp spec fn url_with_query(base: Seq<char>, pairs: Seq<(Seq<char>, Seq<char>)>) -> Option<Seq<char>>;

/// `url::Url::parse(base)`, then `query_pairs_mut().extend_pairs(pairs)`
/// (each pair form-encoded and appended in order), serialized with
/// `to_string`. The result is named by `url_with_query`.
#[verifier::external_body]
pub fn url_with_pairs(base: &str, pairs: &Vec<(String, String)>) -> (r: Option<String>)
    ensures
        opt_view(r) == url_with_query(base@, pairs_view(pairs@)),
{
    url::Url::parse(base).ok().map(|mut u| {
        u.query_pairs_mut().extend_pairs(pairs.iter().map(|p| (p.0.as_str(), p.1.as_str())));
        u.to_string()
    })
}

// ---------------------------------------------------------------------------
// HLS playlists
// ---------------------------------------------------------------------------

/// What the library reads of a parsed HLS playlist: whether it is a master
/// playlist, a master's variants in order, and a media playlist's media
/// sequence and segment URIs in order.
pub struct PlaylistShape {
    pub master: bool,
    pub variants: Vec<crate::media::hls::MediaVariant>,
    pub media_sequence: u64,
    pub segment_uris: Vec<String>,
}

/// A variant as values: URI, bandwidth, average bandwidth, I-frame.
pub open spec fn variant_view(v: crate::media::hls::MediaVariant) -> (Seq<char>, u64, Option<u64>, bool) {
    (v.uri@, v.bandwidth, v.average_bandwidth, v.is_i_frame)
}

/// A playlist shape as values.
pub open spec fn shape_view(r: Option<PlaylistShape>) -> Option<
    (bool, Seq<(Seq<char>, u64, Option<u64>, bool)>, u64, Seq<Seq<char>>),
> {
    match r {
        Some(s) => Some(
            (
                s.master,
                s.variants@.map_values(|v: crate::media::hls::MediaVariant| variant_view(v)),
                s.media_sequence,
                strings_view(s.segment_uris@),
            ),
        ),
        None => None,
    }
}

/// What `m3u8_rs::parse_playlist` makes of a playlist's bytes: `None` when
/// it does not parse; else whether it is a master playlist; for a master,
/// its variants (URI, bandwidth, average bandwidth, I-frame) in order; for
/// a media playlist, its `#EXT-X-MEDIA-SEQUENCE` and its segments' URIs in
/// order.
pub uninterp spec fn playlist_shape(bytes: Seq<u8>) -> Option<
    (bool, Seq<(Seq<char>, u64, Option<u64>, bool)>, u64, Seq<Seq<char>>),
>;

/// `m3u8_rs::parse_playlist(bytes)`, reduced to the playlist's kind, a
/// master's variants and a media playlist's media sequence and segment
/// URIs; the result is named by `playlist_shape`. A media playlist gives no
/// variants, a master no media sequence (0) and no segments.
#[verifier::external_body]
pub fn parse_playlist_shape(bytes: &[u8]) -> (r: Option<PlaylistShape>)
    ensures
        shape_view(r) == playlist_shape(bytes@),
        r matches Some(s) ==> (!s.master ==> s.variants@.len() == 0),
        r matches Some(s) ==> (s.master ==> s.media_sequence == 0 && s.segment_uris@.len() == 0),
{
    m3u8_rs::parse_playlist(bytes).ok().map(|(_, p)| match p {
        m3u8_rs::Playlist::MasterPlaylist(m) => PlaylistShape {
            master: true, media_sequence: 0, segment_uris: Vec::new(),
            variants: m.variants.into_iter().map(|v| crate::media::hls::MediaVariant {
                uri: v.uri, bandwidth: v.bandwidth, average_bandwidth: v.average_bandwidth, is_i_frame: v.is_i_frame,
            }).collect(),
        },
        m3u8_rs::Playlist::MediaPlaylist(m) => PlaylistShape {
            master: false, variants: Vec::new(), media_sequence: m.media_sequence,
            segment_uris: m.segments.into_iter().map(|seg| seg.uri).collect(),
        },
    })
}

// ---------------------------------------------------------------------------
// Clock and randomness
// ---------------------------------------------------------------------------

/// The current Unix time in seconds (`chrono::Utc::now().timestamp()`).
/// Nothing is stated of it: it depends on the clock.
#[verifier::external_body]
pub fn now_unix_seconds() -> i64 {
    chrono::Utc::now().timestamp()
}

/// The current Unix time in whole seconds from `SystemTime`, or 0 when the
/// clock is before the epoch. Nothing is stated of it: it depends on the clock.
#[verifier::external_body]
pub fn system_unix_seconds() -> u64 {
    std::time::SystemTime::now().duration_since(std::time::UNIX_EPOCH).map_or(
        0,
        |d| d.as_secs(),
    )
}

/// The current Unix time in milliseconds from `SystemTime`, truncated to 64
/// bits, or 0 when the clock is before the epoch.
#[verifier::external_body]
pub fn system_unix_millis() -> u64 {
    std::time::SystemTime::now().duration_since(std::time::UNIX_EPOCH).unwrap_or_default().as_millis() as u64
}

/// The current Unix time in milliseconds (`chrono::Utc::now()
/// .timestamp_millis()`). Nothing is stated of it: it depends on the clock.
#[verifier::external_body]
pub fn now_unix_millis() -> i64 {
    chrono::Utc::now().timestamp_millis()
}

/// `rand::random::<u64>()`: any 64-bit value, drawn at random, so nothing is
/// stated of it.
#[verifier::external_body]
pub fn random_u64() -> u64 {
    rand::random::<u64>()
}

/// `rand::random_range(0..len)`: a uniformly chosen index below `len`. The
/// range must be non-empty, else the call panics.
#[verifier::external_body]
pub fn random_index(len: usize) -> (r: usize)
    requires
        len > 0,
    ensures
        r < len,
{
    rand::random_range(0..len)
}

/// The Unix time (seconds) of a wall-clock text read in `format` as a UTC
/// time, or `None` when it does not parse in that format.
pub uninterp spec fn utc_seconds(text: Seq<char>, format: Seq<char>) -> Option<i64>;

/// `chrono::NaiveDateTime::parse_from_str(text, format)`, taken as UTC
/// (`Utc.from_local_datetime(..).earliest()`), then `timestamp()`. The
/// result is named by `utc_seconds`. chrono's dates lie between the years
/// -262 143 and 262 142, so a timestamp is well within nine trillion seconds
/// of the epoch; that bound is the one fact stated.
#[verifier::external_body]
pub fn parse_utc_seconds(text: &str, format: &str) -> (r: Option<i64>)
    ensures
        r == utc_seconds(text@, format@),
        r matches Some(t) ==> -9_000_000_000_000 <= t <= 9_000_000_000_000,
{
    chrono::NaiveDateTime::parse_from_str(text, format)
        .ok()
        .and_then(|naive| chrono::Utc.from_local_datetime(&naive).earliest())
        .map(|time| time.timestamp())
}

/// `rand::seq::IndexedRandom::choose` with the thread-local generator: one
/// item of a non-empty list (for an empty one it gives nothing, which the
/// callers here rule out). Which item is left to chance.
#[verifier::external_body]
pub fn choose_item<T>(items: &Vec<T>) -> (r: &T)
    requires
        items.len() > 0,
    ensures
        items@.contains(*r),
{
    items.choose(&mut rand::rng()).unwrap()
}

/// `rand::seq::SliceRandom::shuffle` with the thread-local generator: the
/// items are put in a random order, so the result holds the same items.
#[verifier::external_body]
pub fn shuffle<T>(v: &mut Vec<T>)
    ensures
        final(v)@.to_multiset() == old(v)@.to_multiset(),
{
    rand::seq::SliceRandom::shuffle(v.as_mut_slice(), &mut rand::rng())
}

/// `fastrand::u32(lo..hi)`: a random value in the half-open range, which must
/// be non-empty, else the call panics.
#[verifier::external_body]
pub fn random_u32_in(lo: u32, hi: u32) -> (r: u32)
    requires
        lo < hi,
    ensures
        lo <= r < hi,
{
    fastrand::u32(lo..hi)
}

} // verus!
