//! Bilibili stream descriptions and the URLs built from them.
use vstd::prelude::*;

use crate::errors::RecorderError;
use crate::json::{at, get_at, str_member, u64_member, Json};
use crate::media::stream_info::or_empty;
use crate::media::{Codec, Format};
use crate::outside::{capture, opt_view, random_index, regex_capture, shuffle};
use crate::text::{
    after_last_char, after_last_char_exec, append_chars, append_str, chars_of, decimal, eq_str,
    join_exec, join_with, parse_i64, parse_i64_exec, push_decimal, replace, replace_exec,
    string_of, vecs_view,
};
use vstd::string::StringExecFns;

verus! {

/// A live room as the room API describes it.
#[derive(Debug, Clone)]
pub struct RoomInfo {
    pub live_status: u8,
    pub room_cover_url: String,
    pub room_id: String,
    pub room_keyframe_url: String,
    pub room_title: String,
    pub user_id: String,
    pub live_start_time: i64,
}

/// A user as the space API describes it.
#[derive(Debug, Clone)]
pub struct UserInfo {
    pub user_id: String,
    pub user_name: String,
    pub user_sign: String,
    pub user_avatar_url: String,
}

/// A login QR code: its key and the URL it encodes.
#[derive(Debug, Clone, Default)]
pub struct QrInfo {
    pub oauth_key: String,
    pub url: String,
}

/// The state of a QR login: the poll code and, once confirmed, the cookies.
#[derive(Debug, Clone, Default)]
pub struct QrStatus {
    pub code: u8,
    pub cookies: String,
}

/// A Bilibili live stream: one playlist path served by several CDN hosts.
#[derive(Debug, Clone)]
pub struct BiliStream {
    pub format: Format,
    pub codec: Codec,
    pub base_url: String,
    pub url_info: Vec<UrlInfo>,
    pub drm: bool,
    pub master_url: Option<String>,
}

/// One CDN host of a stream and the signed query it expects.
#[derive(Debug, Clone)]
pub struct UrlInfo {
    pub host: String,
    pub extra: String,
}

/// The pattern that finds a signature's expiry in a query.
pub const EXPIRE_PATTERN: &'static str = "expires=(\\d+)";

/// The expiry (Unix seconds) written as `expires=<digits>` in a query, or 0
/// when there is none or it does not fit an `i64`.
pub open spec fn query_expiry(extra: Seq<char>) -> i64 {
    match regex_capture(EXPIRE_PATTERN@, extra, 1) {
        Some(digits) => match parse_i64(digits) {
            Some(v) => v,
            None => 0,
        },
        None => 0,
    }
}

impl UrlInfo {
    /// The expiry of this host's signed query (see `query_expiry`).
    pub fn get_expire(&self) -> (r: i64)
        ensures
            r == query_expiry(self.extra@),
    {
        match capture(EXPIRE_PATTERN, self.extra.as_str(), 1) {
            Some(digits) => match parse_i64_exec(&chars_of(digits.as_str())) {
                Some(v) => v,
                None => 0,
            },
            None => 0,
        }
    }
}

/// Delivery protocols of the play-info API.
#[derive(Debug, Clone)]
pub enum Protocol {
    HttpStream,
    HttpHls,
}

impl Protocol {
    /// The protocol's number in API requests.
    pub fn value(&self) -> (r: u8)
        ensures
            r == (match self {
                Protocol::HttpStream => 0u8,
                Protocol::HttpHls => 1u8,
            }),
    {
        match self {
            Protocol::HttpStream => 0,
            Protocol::HttpHls => 1,
        }
    }

    /// The protocol's name as the API reports it.
    pub fn api_name(&self) -> (r: &'static str)
        ensures
            r@ == (match self {
                Protocol::HttpStream => "http_stream"@,
                Protocol::HttpHls => "http_hls"@,
            }),
    {
        match self {
            Protocol::HttpStream => "http_stream",
            Protocol::HttpHls => "http_hls",
        }
    }

    /// The variant's name (its `Display` text).
    pub fn to_string(&self) -> (r: String)
        ensures
            r@ == (match self {
                Protocol::HttpStream => "HttpStream"@,
                Protocol::HttpHls => "HttpHls"@,
            }),
    {
        match self {
            Protocol::HttpStream => String::from_str("HttpStream"),
            Protocol::HttpHls => String::from_str("HttpHls"),
        }
    }
}

/// Qualities of the play-info API.
#[derive(Debug, Clone)]
pub enum Qn {
    Dolby,
    Q4K,
    Q2K,
    Q1080PH,
    Q1080P,
    Q720P,
    Hd,
    Smooth,
}

impl Qn {
    /// The quality's number in API requests.
    pub open spec fn spec_value(self) -> i64 {
        match self {
            Qn::Dolby => 30000,
            Qn::Q4K => 20000,
            Qn::Q2K => 15000,
            Qn::Q1080PH => 10000,
            Qn::Q1080P => 400,
            Qn::Q720P => 250,
            Qn::Hd => 150,
            Qn::Smooth => 80,
        }
    }

    pub fn value(&self) -> (r: i64)
        ensures
            r == self.spec_value(),
    {
        match self {
            Qn::Dolby => 30000,
            Qn::Q4K => 20000,
            Qn::Q2K => 15000,
            Qn::Q1080PH => 10000,
            Qn::Q1080P => 400,
            Qn::Q720P => 250,
            Qn::Hd => 150,
            Qn::Smooth => 80,
        }
    }

    /// The variant's name (its `Display` text).
    pub fn to_string(&self) -> (r: String)
        ensures
            r@ == (match self {
                Qn::Dolby => "Dolby"@,
                Qn::Q4K => "Q4K"@,
                Qn::Q2K => "Q2K"@,
                Qn::Q1080PH => "Q1080PH"@,
                Qn::Q1080P => "Q1080P"@,
                Qn::Q720P => "Q720P"@,
                Qn::Hd => "Hd"@,
                Qn::Smooth => "Smooth"@,
            }),
    {
        match self {
            Qn::Dolby => String::from_str("Dolby"),
            Qn::Q4K => String::from_str("Q4K"),
            Qn::Q2K => String::from_str("Q2K"),
            Qn::Q1080PH => String::from_str("Q1080PH"),
            Qn::Q1080P => String::from_str("Q1080P"),
            Qn::Q720P => String::from_str("Q720P"),
            Qn::Hd => String::from_str("Hd"),
            Qn::Smooth => String::from_str("Smooth"),
        }
    }
}

/// The playlist URL on a host: `host + base_url + extra`.
pub open spec fn bili_index_url(host: Seq<char>, base_url: Seq<char>, extra: Seq<char>) -> Seq<char> {
    host + base_url + extra
}

/// The URL of segment `seg_name` on a host: the playlist's file name in
/// `base_url` replaced by the segment's, then `?` and the host's query.
pub open spec fn bili_segment_url(
    host: Seq<char>,
    base_url: Seq<char>,
    extra: Seq<char>,
    seg_name: Seq<char>,
) -> Seq<char> {
    host + replace(base_url, after_last_char(base_url, '/'), seg_name) + seq!['?'] + extra
}

impl BiliStream {
    pub fn new(
        format: Format,
        codec: Codec,
        base_url: &str,
        url_info: Vec<UrlInfo>,
        drm: bool,
        master_url: Option<String>,
    ) -> (r: BiliStream)
        ensures
            r.format == format,
            r.codec == codec,
            r.base_url@ == base_url@,
            r.url_info == url_info,
            r.drm == drm,
            r.master_url == master_url,
    {
        BiliStream { format, codec, base_url: String::from_str(base_url), url_info, drm, master_url }
    }

    /// The playlist URL on host `i`.
    pub fn index_at(&self, i: usize) -> (r: String)
        requires
            i < self.url_info.len(),
        ensures
            r@ == bili_index_url(
                self.url_info@[i as int].host@,
                self.base_url@,
                self.url_info@[i as int].extra@,
            ),
    {
        let info = &self.url_info[i];
        let mut v = chars_of(info.host.as_str());
        append_str(&mut v, self.base_url.as_str());
        append_str(&mut v, info.extra.as_str());
        string_of(&v)
    }

    /// The playlist URL on a randomly chosen host; the stream must have one.
    pub fn index(&self) -> (r: String)
        requires
            self.url_info.len() > 0,
        ensures
            exists|i: int|
                0 <= i < self.url_info.len() && r@ == bili_index_url(
                    #[trigger] self.url_info@[i].host@,
                    self.base_url@,
                    self.url_info@[i].extra@,
                ),
    {
        let i = random_index(self.url_info.len());
        self.index_at(i)
    }

    /// The URL of segment `seg_name` on host `i`.
    pub fn ts_url_at(&self, seg_name: &str, i: usize) -> (r: String)
        requires
            i < self.url_info.len(),
        ensures
            r@ == bili_segment_url(
                self.url_info@[i as int].host@,
                self.base_url@,
                self.url_info@[i as int].extra@,
                seg_name@,
            ),
    {
        let base = chars_of(self.base_url.as_str());
        let file_name = after_last_char_exec(&base, '/');
        let seg = chars_of(seg_name);
        let replaced = replace_exec(&base, &file_name, &seg);
        let info = &self.url_info[i];
        let mut v = chars_of(info.host.as_str());
        append_chars(&mut v, &replaced);
        v.push('?');
        append_str(&mut v, info.extra.as_str());
        string_of(&v)
    }

    /// The URL of segment `seg_name` on a randomly chosen host; the stream
    /// must have one.
    pub fn ts_url(&self, seg_name: &str) -> (r: String)
        requires
            self.url_info.len() > 0,
        ensures
            exists|i: int|
                0 <= i < self.url_info.len() && r@ == bili_segment_url(
                    #[trigger] self.url_info@[i].host@,
                    self.base_url@,
                    self.url_info@[i].extra@,
                    seg_name@,
                ),
    {
        let i = random_index(self.url_info.len());
        self.ts_url_at(seg_name, i)
    }
}

// ---------------------------------------------------------------------------
// Choosing a stream from the play-info response
// ---------------------------------------------------------------------------

/// The format's name in the play-info response.
pub open spec fn format_api_name(f: Format) -> Seq<char> {
    match f {
        Format::Flv => "flv"@,
        Format::TS => "ts"@,
        Format::FMP4 => "fmp4"@,
    }
}

/// The codec's name in the play-info response.
pub open spec fn codec_api_name(c: Codec) -> Seq<char> {
    match c {
        Codec::Avc => "avc"@,
        Codec::Hevc => "hevc"@,
    }
}

fn format_api_name_exec(f: &Format) -> (r: &'static str)
    ensures
        r@ == format_api_name(*f),
{
    match f {
        Format::Flv => "flv",
        Format::TS => "ts",
        Format::FMP4 => "fmp4",
    }
}

fn codec_api_name_exec(c: &Codec) -> (r: &'static str)
    ensures
        r@ == codec_api_name(*c),
{
    match c {
        Codec::Avc => "avc",
        Codec::Hevc => "hevc",
    }
}

pub open spec fn codec_names(codecs: Seq<Codec>) -> Seq<Seq<char>> {
    codecs.map_values(|c: Codec| codec_api_name(c))
}

/// The items of an optional array value (none when it is absent or no
/// array).
pub open spec fn items_of(value: Option<Json>) -> Seq<Json> {
    match value {
        Some(v) => match v.array_items() {
            Some(items) => items,
            None => Seq::empty(),
        },
        None => Seq::empty(),
    }
}

/// The first item whose string member `key` is `value`.
pub open spec fn item_named(items: Seq<Json>, key: Seq<char>, value: Seq<char>) -> Option<Json>
    decreases items.len(),
{
    if items.len() == 0 {
        None
    } else if str_member(items[0], key) == Some(value) {
        Some(items[0])
    } else {
        item_named(items.drop_first(), key, value)
    }
}

/// The first item whose `codec_name` (empty when missing) is one of `names`.
pub open spec fn item_with_codec(items: Seq<Json>, names: Seq<Seq<char>>) -> Option<Json>
    decreases items.len(),
{
    if items.len() == 0 {
        None
    } else if names.contains(or_empty(str_member(items[0], "codec_name"@))) {
        Some(items[0])
    } else {
        item_with_codec(items.drop_first(), names)
    }
}

/// Why no stream could be chosen: an API error, a missing format or a
/// missing codec, each with its message.
pub enum PlayFailure {
    Api(Seq<char>),
    FormatNotFound(Seq<char>),
    CodecNotFound(Seq<char>),
}

/// `e` is the error that reports `f`.
pub open spec fn reports(e: RecorderError, f: PlayFailure) -> bool {
    match f {
        PlayFailure::Api(m) => e matches RecorderError::ApiError { error } && error@ == m,
        PlayFailure::FormatNotFound(m) => e matches RecorderError::FormatNotFound { format } && format@ == m,
        PlayFailure::CodecNotFound(m) => e matches RecorderError::CodecNotFound { codecs } && codecs@ == m,
    }
}

/// The choice that a play-info response allows: a non-zero `code` is an API
/// error; then the first stream of the requested protocol, its first format
/// of the requested format, and its first codec among the requested ones
/// are chosen, each failing with its own error when missing. The result is
/// the format entry, the codec entry and the chosen codec.
pub open spec fn play_selection(res: Json, protocol: Protocol, format: Format, codecs: Seq<Codec>) -> Result<
    (Json, Json, Codec),
    PlayFailure,
> {
    let code = match u64_member(res, "code"@) {
        Some(c) => c,
        None => 0,
    };
    let message = or_empty(str_member(res, "message"@));
    let target_protocol = match protocol {
        Protocol::HttpStream => "http_stream"@,
        Protocol::HttpHls => "http_hls"@,
    };
    let streams = items_of(at(at(at(res.lookup("data"@), "playurl_info"@), "playurl"@), "stream"@));
    if code != 0 {
        Err(PlayFailure::Api("Code "@ + decimal(code as nat) + " not found, message: "@ + message))
    } else if streams.len() == 0 {
        Err(PlayFailure::Api("No streams available"@))
    } else {
        match item_named(streams, "protocol_name"@, target_protocol) {
            None => Err(PlayFailure::Api("Protocol "@ + target_protocol + " not found"@)),
            Some(stream) => match item_named(
                items_of(stream.lookup("format"@)),
                "format_name"@,
                format_api_name(format),
            ) {
                None => Err(PlayFailure::FormatNotFound(format_api_name(format))),
                Some(format_info) => match item_with_codec(
                    items_of(format_info.lookup("codec"@)),
                    codec_names(codecs),
                ) {
                    None => Err(PlayFailure::CodecNotFound(join_with(codec_names(codecs), ","@))),
                    Some(codec_info) => {
                        let name = or_empty(str_member(codec_info, "codec_name"@));
                        if name == "avc"@ {
                            Ok((format_info, codec_info, Codec::Avc))
                        } else if name == "hevc"@ {
                            Ok((format_info, codec_info, Codec::Hevc))
                        } else {
                            Err(PlayFailure::CodecNotFound(name))
                        }
                    },
                },
            },
        }
    }
}

/// A host entry as plain values: its host and query (empty when missing).
pub open spec fn host_entry(u: Json) -> (Seq<char>, Seq<char>) {
    (or_empty(str_member(u, "host"@)), or_empty(str_member(u, "extra"@)))
}

pub open spec fn url_infos_view(v: Seq<UrlInfo>) -> Seq<(Seq<char>, Seq<char>)> {
    v.map_values(|u: UrlInfo| (u.host@, u.extra@))
}

/// `s` is the stream described by a chosen format and codec entry, its
/// hosts in the response's order.
pub open spec fn stream_of(s: BiliStream, format: Format, choice: (Json, Json, Codec)) -> bool {
    let (format_info, codec_info, codec) = choice;
    &&& s.format == format
    &&& s.codec == codec
    &&& s.base_url@ == or_empty(str_member(codec_info, "base_url"@))
    &&& url_infos_view(s.url_info@) == items_of(codec_info.lookup("url_info"@)).map_values(
        |u: Json| host_entry(u),
    )
    &&& s.drm == (match codec_info.lookup("drm"@) {
        Some(d) => match d.bool_value() {
            Some(b) => b,
            None => false,
        },
        None => false,
    })
    &&& opt_view(s.master_url) == str_member(format_info, "master_url"@)
}

/// The string member `key` of `value`, or empty.
fn str_or_empty(value: &Json, key: &str) -> (r: String)
    ensures
        r@ == or_empty(str_member(*value, key@)),
{
    match value.get_str(key) {
        Some(s) => s,
        None => String::new(),
    }
}

/// The items of an optional array value.
fn items_exec<'a>(value: Option<&'a Json>) -> (r: &'a [Json])
    ensures
        r@ == items_of(
            match value {
                Some(v) => Some(*v),
                None => None::<Json>,
            },
        ),
{
    match value {
        Some(v) => match v.as_array() {
            Some(items) => items.as_slice(),
            None => &[],
        },
        None => &[],
    }
}

fn find_named<'a>(items: &'a [Json], key: &str, value: &str) -> (r: Option<&'a Json>)
    ensures
        r is Some <==> item_named(items@, key@, value@) is Some,
        r matches Some(v) ==> item_named(items@, key@, value@) == Some(*v),
{
    let target = chars_of(value);
    let mut i: usize = 0;
    assert(items@.skip(0) =~= items@);
    while i < items.len()
        invariant
            i <= items.len(),
            target@ == value@,
            item_named(items@, key@, value@) == item_named(items@.skip(i as int), key@, value@),
        decreases items.len() - i,
    {
        assert(items@.skip(i as int)[0] == items@[i as int]);
        assert(items@.skip(i as int).drop_first() =~= items@.skip(i + 1));
        match items[i].get_str(key) {
            Some(s) => {
                if crate::text::chars_eq(&chars_of(s.as_str()), &target) {
                    return Some(&items[i]);
                }
            },
            None => {},
        }
        i += 1;
    }
    assert(items@.skip(i as int) =~= Seq::<Json>::empty());
    None
}

fn name_listed(names: &Vec<&'static str>, name: &[char]) -> (r: bool)
    ensures
        r == names@.map_values(|s: &str| s@).contains(name@),
{
    let ghost nv = names@.map_values(|s: &str| s@);
    let mut i: usize = 0;
    while i < names.len()
        invariant
            i <= names.len(),
            nv == names@.map_values(|s: &str| s@),
            forall|k: int| 0 <= k < i ==> nv[k] != name@,
        decreases names.len() - i,
    {
        if eq_str(name, names[i]) {
            assert(nv[i as int] == name@);
            return true;
        }
        i += 1;
    }
    false
}

fn find_codec<'a>(items: &'a [Json], names: &Vec<&'static str>) -> (r: Option<&'a Json>)
    ensures
        r is Some <==> item_with_codec(items@, names@.map_values(|s: &str| s@)) is Some,
        r matches Some(v) ==> item_with_codec(items@, names@.map_values(|s: &str| s@)) == Some(*v),
{
    let ghost nv = names@.map_values(|s: &str| s@);
    let mut i: usize = 0;
    assert(items@.skip(0) =~= items@);
    while i < items.len()
        invariant
            i <= items.len(),
            nv == names@.map_values(|s: &str| s@),
            item_with_codec(items@, nv) == item_with_codec(items@.skip(i as int), nv),
        decreases items.len() - i,
    {
        assert(items@.skip(i as int)[0] == items@[i as int]);
        assert(items@.skip(i as int).drop_first() =~= items@.skip(i + 1));
        let name = str_or_empty(&items[i], "codec_name");
        if name_listed(names, &chars_of(name.as_str())) {
            return Some(&items[i]);
        }
        i += 1;
    }
    assert(items@.skip(i as int) =~= Seq::<Json>::empty());
    None
}

fn host_entries(items: &[Json]) -> (r: Vec<UrlInfo>)
    ensures
        url_infos_view(r@) == items@.map_values(|u: Json| host_entry(u)),
{
    let mut r: Vec<UrlInfo> = Vec::new();
    let mut i: usize = 0;
    while i < items.len()
        invariant
            i <= items.len(),
            url_infos_view(r@) == items@.take(i as int).map_values(|u: Json| host_entry(u)),
        decreases items.len() - i,
    {
        let u = UrlInfo { host: str_or_empty(&items[i], "host"), extra: str_or_empty(&items[i], "extra") };
        let ghost old_v = url_infos_view(r@);
        let ghost e = (u.host@, u.extra@);
        assert(e == host_entry(items@[i as int]));
        r.push(u);
        assert(url_infos_view(r@) =~= old_v.push(e));
        assert(items@.take(i + 1).map_values(|u: Json| host_entry(u)) =~= items@.take(i as int).map_values(
            |u: Json| host_entry(u),
        ).push(host_entry(items@[i as int])));
        i += 1;
    }
    assert(items@.take(items.len() as int) =~= items@);
    r
}

fn failure(msg: Vec<char>) -> (r: RecorderError)
    ensures
        reports(r, PlayFailure::Api(msg@)),
{
    RecorderError::ApiError { error: string_of(&msg) }
}

/// The stream that a play-info response offers for the requested protocol,
/// format and codecs (see `play_selection`), its hosts in the response's
/// order.
pub fn select_play_stream(res: &Json, protocol: Protocol, format: Format, codecs: &[Codec]) -> (r:
    Result<BiliStream, RecorderError>)
    ensures
        match play_selection(*res, protocol, format, codecs@) {
            Err(f) => r matches Err(e) && reports(e, f),
            Ok(choice) => r matches Ok(s) && stream_of(s, format, choice),
        },
{
    let code = match res.get_u64("code") {
        Some(c) => c,
        None => 0,
    };
    let message = str_or_empty(res, "message");
    if code != 0 {
        let mut msg = chars_of("Code ");
        push_decimal(&mut msg, code);
        append_str(&mut msg, " not found, message: ");
        append_str(&mut msg, message.as_str());
        return Err(failure(msg));
    }
    let playurl = get_at(get_at(res.get("data"), "playurl_info"), "playurl");
    let streams = items_exec(get_at(playurl, "stream"));
    if streams.len() == 0 {
        return Err(failure(chars_of("No streams available")));
    }
    let target_protocol = protocol.api_name();
    let stream = match find_named(streams, "protocol_name", target_protocol) {
        Some(s) => s,
        None => {
            let mut msg = chars_of("Protocol ");
            append_str(&mut msg, target_protocol);
            append_str(&mut msg, " not found");
            return Err(failure(msg));
        },
    };
    let target_format = format_api_name_exec(&format);
    let format_info = match find_named(items_exec(stream.get("format")), "format_name", target_format) {
        Some(f) => f,
        None => {
            return Err(RecorderError::FormatNotFound { format: String::from_str(target_format) });
        },
    };
    let mut names: Vec<&'static str> = Vec::new();
    let mut i: usize = 0;
    while i < codecs.len()
        invariant
            i <= codecs.len(),
            names@.map_values(|s: &str| s@) == codec_names(codecs@.take(i as int)),
        decreases codecs.len() - i,
    {
        let ghost old_n = names@.map_values(|s: &str| s@);
        let n = codec_api_name_exec(&codecs[i]);
        names.push(n);
        assert(names@.map_values(|s: &str| s@) =~= old_n.push(n@));
        assert(codec_names(codecs@.take(i + 1)) =~= codec_names(codecs@.take(i as int)).push(
            codec_api_name(codecs@[i as int]),
        ));
        i += 1;
    }
    assert(codecs@.take(codecs.len() as int) =~= codecs@);
    let codec_info = match find_codec(items_exec(format_info.get("codec")), &names) {
        Some(c) => c,
        None => {
            let mut parts: Vec<Vec<char>> = Vec::new();
            let mut k: usize = 0;
            while k < names.len()
                invariant
                    k <= names.len(),
                    vecs_view(parts@) == names@.map_values(|s: &str| s@).take(k as int),
                decreases names.len() - k,
            {
                let ghost old_p = vecs_view(parts@);
                let c = chars_of(names[k]);
                assert(c@ == names@.map_values(|s: &str| s@)[k as int]);
                parts.push(c);
                assert(vecs_view(parts@) =~= old_p.push(names@.map_values(|s: &str| s@)[k as int]));
                assert(names@.map_values(|s: &str| s@).take(k + 1) =~= names@.map_values(|s: &str| s@).take(
                    k as int,
                ).push(names@.map_values(|s: &str| s@)[k as int]));
                k += 1;
            }
            assert(names@.map_values(|s: &str| s@).take(names.len() as int) =~= names@.map_values(
                |s: &str| s@,
            ));
            let joined = join_exec(&parts, ",");
            return Err(RecorderError::CodecNotFound { codecs: string_of(&joined) });
        },
    };
    let name = str_or_empty(codec_info, "codec_name");
    let nv = chars_of(name.as_str());
    let codec = if eq_str(&nv, "avc") {
        Codec::Avc
    } else if eq_str(&nv, "hevc") {
        Codec::Hevc
    } else {
        return Err(RecorderError::CodecNotFound { codecs: name });
    };
    let url_info = host_entries(items_exec(codec_info.get("url_info")));
    let drm = match codec_info.get("drm") {
        Some(d) => match d.as_bool() {
            Some(b) => b,
            None => false,
        },
        None => false,
    };
    Ok(
        BiliStream {
            format,
            codec,
            base_url: str_or_empty(codec_info, "base_url"),
            url_info,
            drm,
            master_url: format_info.get_str("master_url"),
        },
    )
}

/// What `play_info_stream` gives for a play-info response: the error the
/// selection reports, or the selected stream with its URL entries in some
/// order.
pub open spec fn play_stream_outcome(
    res: Json,
    protocol: Protocol,
    format: Format,
    codecs: Seq<Codec>,
    r: Result<BiliStream, RecorderError>,
) -> bool {
    match play_selection(res, protocol, format, codecs) {
        Err(f) => r matches Err(e) && reports(e, f),
        Ok(choice) => r matches Ok(s) && exists|t: BiliStream|
            stream_of(t, format, choice) && s.url_info@.to_multiset() == t.url_info@.to_multiset()
                && s.format == t.format && s.codec == t.codec && s.base_url == t.base_url
                && s.drm == t.drm && s.master_url == t.master_url,
    }
}

/// The stream that a play-info response body offers: `InvalidResponse`
/// when the body is not JSON, else as `play_info_stream` reads it.
pub fn play_info_stream_text(body: &str, protocol: Protocol, format: Format, codecs: &[Codec]) -> (r: Result<
    BiliStream,
    RecorderError,
>)
    ensures
        match crate::outside::json_parsed(body@) {
            Err(_) => r matches Err(RecorderError::InvalidResponse),
            Ok(res) => play_stream_outcome(res, protocol, format, codecs@, r),
        },
{
    match crate::outside::parse_json(body) {
        Ok(res) => play_info_stream(&res, protocol, format, codecs),
        Err(_) => Err(RecorderError::InvalidResponse),
    }
}

/// The stream of a play-info response (see `select_play_stream`), its hosts
/// put in a random order.
pub fn play_info_stream(res: &Json, protocol: Protocol, format: Format, codecs: &[Codec]) -> (r:
    Result<BiliStream, RecorderError>)
    ensures
        play_stream_outcome(*res, protocol, format, codecs@, r),
{
    match select_play_stream(res, protocol, format, codecs) {
        Ok(s) => {
            let ghost t = s;
            let mut s = s;
            shuffle(&mut s.url_info);
            Ok(s)
        },
        Err(e) => Err(e),
    }
}

/// The number of a format in play-info requests (its declaration order).
pub open spec fn format_number(f: Format) -> nat {
    match f {
        Format::Flv => 0,
        Format::TS => 1,
        Format::FMP4 => 2,
    }
}

/// The number of a codec in play-info requests (its declaration order).
pub open spec fn codec_number(c: Codec) -> nat {
    match c {
        Codec::Avc => 0,
        Codec::Hevc => 1,
    }
}

/// The codec numbers, joined with `,`.
pub open spec fn codec_list(codecs: Seq<Codec>) -> Seq<char> {
    join_with(codecs.map_values(|c: Codec| decimal(codec_number(c))), ","@)
}

/// The play-info request for a room.
pub open spec fn play_info_request(
    room_id: Seq<char>,
    protocol: Protocol,
    format: Format,
    codecs: Seq<Codec>,
    qn: Qn,
) -> Seq<char> {
    "https://api.live.bilibili.com/xlive/web-room/v2/index/getRoomPlayInfo?room_id="@ + room_id
        + "&protocol="@ + decimal(match protocol {
        Protocol::HttpStream => 0nat,
        Protocol::HttpHls => 1nat,
    }) + "&format="@ + decimal(format_number(format)) + "&codec="@ + codec_list(codecs) + "&qn="@
        + crate::text::signed_decimal(qn.spec_value() as int) + "&platform=h5"@
}

pub fn play_info_url(room_id: &str, protocol: &Protocol, format: &Format, codecs: &[Codec], qn: &Qn) -> (r:
    String)
    ensures
        r@ == play_info_request(room_id@, *protocol, *format, codecs@, *qn),
{
    let mut parts: Vec<Vec<char>> = Vec::new();
    let mut i: usize = 0;
    while i < codecs.len()
        invariant
            i <= codecs.len(),
            vecs_view(parts@) == codecs@.take(i as int).map_values(|c: Codec| decimal(codec_number(c))),
        decreases codecs.len() - i,
    {
        let n: u64 = match codecs[i] {
            Codec::Avc => 0,
            Codec::Hevc => 1,
        };
        let ghost old_p = vecs_view(parts@);
        let mut d: Vec<char> = Vec::new();
        push_decimal(&mut d, n);
        assert(d@ =~= decimal(codec_number(codecs@[i as int])));
        parts.push(d);
        assert(vecs_view(parts@) =~= old_p.push(decimal(codec_number(codecs@[i as int]))));
        assert(codecs@.take(i + 1).map_values(|c: Codec| decimal(codec_number(c))) =~= codecs@.take(
            i as int,
        ).map_values(|c: Codec| decimal(codec_number(c))).push(decimal(codec_number(codecs@[i as int]))));
        i += 1;
    }
    assert(codecs@.take(codecs.len() as int) =~= codecs@);
    let mut v = chars_of("https://api.live.bilibili.com/xlive/web-room/v2/index/getRoomPlayInfo?room_id=");
    append_str(&mut v, room_id);
    append_str(&mut v, "&protocol=");
    push_decimal(&mut v, protocol.value() as u64);
    append_str(&mut v, "&format=");
    let f: u64 = match format {
        Format::Flv => 0,
        Format::TS => 1,
        Format::FMP4 => 2,
    };
    push_decimal(&mut v, f);
    append_str(&mut v, "&codec=");
    let list = join_exec(&parts, ",");
    append_chars(&mut v, &list);
    append_str(&mut v, "&qn=");
    crate::text::push_signed_decimal(&mut v, qn.value());
    append_str(&mut v, "&platform=h5");
    string_of(&v)
}


proof fn item_named_found(items: Seq<Json>, key: Seq<char>, value: Seq<char>)
    ensures
        item_named(items, key, value) matches Some(x) ==> str_member(x, key) == Some(value) && exists|k: int|
            0 <= k < items.len() && items[k] == x,
    decreases items.len(),
{
    if items.len() > 0 && str_member(items[0], key) != Some(value) {
        item_named_found(items.drop_first(), key, value);
        if item_named(items, key, value) is Some {
            let x = item_named(items, key, value)->0;
            let k = choose|k: int| 0 <= k < items.drop_first().len() && items.drop_first()[k] == x;
            assert(items[k + 1] == x);
        }
    } else if items.len() > 0 {
        assert(items[0] == item_named(items, key, value)->0);
    }
}

proof fn item_with_codec_found(items: Seq<Json>, names: Seq<Seq<char>>)
    ensures
        item_with_codec(items, names) matches Some(x) ==> exists|k: int| 0 <= k < items.len() && items[k] == x,
    decreases items.len(),
{
    if items.len() > 0 && !names.contains(or_empty(str_member(items[0], "codec_name"@))) {
        item_with_codec_found(items.drop_first(), names);
        if item_with_codec(items, names) is Some {
            let x = item_with_codec(items, names)->0;
            let k = choose|k: int| 0 <= k < items.drop_first().len() && items.drop_first()[k] == x;
            assert(items[k + 1] == x);
        }
    } else if items.len() > 0 {
        assert(items[0] == item_with_codec(items, names)->0);
    }
}

/// The name a play-info answer gives the requested format: `flv`, `ts` or
/// `fmp4`.
pub open spec fn requested_format_name(format: Format) -> Seq<char> {
    match format {
        Format::Flv => "flv"@,
        Format::TS => "ts"@,
        Format::FMP4 => "fmp4"@,
    }
}

/// A chosen stream comes from the requested format: there is a stream entry
/// of the requested protocol whose format entry is named as the requested
/// format (`flv`, `ts` or `fmp4`), and the stream's codec entry is one of
/// that format entry's codecs, whose `base_url` the stream takes.
pub proof fn chosen_stream_comes_from_the_requested_format(
    res: Json,
    protocol: Protocol,
    format: Format,
    codecs: Seq<Codec>,
    s: BiliStream,
)
    requires
        play_selection(res, protocol, format, codecs) matches Ok(choice) && stream_of(s, format, choice),
    ensures
        exists|stream: Json, format_info: Json, codec_info: Json|
            #![trigger items_of(stream.lookup("format"@)), items_of(format_info.lookup("codec"@)), str_member(codec_info, "base_url"@)]
            items_of(at(at(at(res.lookup("data"@), "playurl_info"@), "playurl"@), "stream"@)).contains(stream)
            && str_member(stream, "protocol_name"@) == Some(
                match protocol {
                    Protocol::HttpStream => "http_stream"@,
                    Protocol::HttpHls => "http_hls"@,
                },
            ) && items_of(stream.lookup("format"@)).contains(format_info) && str_member(format_info, "format_name"@)
                == Some(requested_format_name(format)) && items_of(format_info.lookup("codec"@)).contains(codec_info)
                && s.base_url@ == or_empty(str_member(codec_info, "base_url"@)) && s.format == format,
{
    let streams = items_of(at(at(at(res.lookup("data"@), "playurl_info"@), "playurl"@), "stream"@));
    let target_protocol = match protocol {
        Protocol::HttpStream => "http_stream"@,
        Protocol::HttpHls => "http_hls"@,
    };
    item_named_found(streams, "protocol_name"@, target_protocol);
    let stream = item_named(streams, "protocol_name"@, target_protocol)->0;
    let formats = items_of(stream.lookup("format"@));
    item_named_found(formats, "format_name"@, format_api_name(format));
    let format_info = item_named(formats, "format_name"@, format_api_name(format))->0;
    let codec_items = items_of(format_info.lookup("codec"@));
    item_with_codec_found(codec_items, codec_names(codecs));
    let codec_info = item_with_codec(codec_items, codec_names(codecs))->0;
    assert(format_api_name(format) == requested_format_name(format));
    let ks = choose|k: int| 0 <= k < streams.len() && streams[k] == stream;
    assert(streams.contains(stream));
    let kf = choose|k: int| 0 <= k < formats.len() && formats[k] == format_info;
    assert(formats.contains(format_info));
    let kc = choose|k: int| 0 <= k < codec_items.len() && codec_items[k] == codec_info;
    assert(codec_items.contains(codec_info));
}

} // verus!
