//! Stream descriptions shared by the recorders.
use vstd::prelude::*;

use crate::outside::now_unix_seconds;
use crate::text::{
    after_last_char, after_last_char_exec, append_chars, append_str, chars_of, contains,
    find_char_exec, replace, replace_exec, starts_with, starts_with_str, string_of, trim_end_char,
    trim_end_char_exec,
};

pub mod ads;
pub mod hls;
pub mod playlist;
pub mod stream_info;

verus! {

/// Container format of an HLS stream.
#[derive(Clone, Copy, Debug, PartialEq, Eq, Structural)]
pub enum Format {
    Flv,
    TS,
    FMP4,
}

impl Format {
    pub open spec fn name(self) -> Seq<char> {
        match self {
            Format::Flv => "Flv"@,
            Format::TS => "TS"@,
            Format::FMP4 => "FMP4"@,
        }
    }

    /// The variant's name, as the `Display` of the format prints it.
    pub fn to_string(&self) -> (r: String)
        ensures
            r@ == self.name(),
    {
        match self {
            Format::Flv => String::from_str("Flv"),
            Format::TS => String::from_str("TS"),
            Format::FMP4 => String::from_str("FMP4"),
        }
    }
}

/// Video codec of an HLS stream.
#[derive(Clone, Copy, Debug, PartialEq, Eq, Structural)]
pub enum Codec {
    Avc,
    Hevc,
}

impl Codec {
    pub open spec fn name(self) -> Seq<char> {
        match self {
            Codec::Avc => "Avc"@,
            Codec::Hevc => "Hevc"@,
        }
    }

    /// The variant's name, as the `Display` of the codec prints it.
    pub fn to_string(&self) -> (r: String)
        ensures
            r@ == self.name(),
    {
        match self {
            Codec::Avc => String::from_str("Avc"),
            Codec::Hevc => String::from_str("Hevc"),
        }
    }
}

/// Seconds before its expiry from which a stream counts as expired.
pub const SAFE_EXPIRE: i64 = 180;

/// An HLS stream split into the parts that segment URLs are built from:
/// ```text
/// host: https://d1--cn-gotcha104b.bilivideo.com
/// base: /live-bvc/375028/live_2124647716_1414766_bluray.m3u8?
/// extra: expire=1734567890&oi=1234567890&s=1234567890&pt=0&ps=0&bw=1000000&tk=1234567890
/// ```
#[derive(Debug, Clone)]
pub struct HlsStream {
    pub id: String,
    pub host: String,
    pub base: String,
    pub extra: String,
    pub format: Format,
    pub codec: Codec,
    /// Unix time (seconds) at which the stream's signature expires; 0 when it
    /// does not expire.
    pub expire: i64,
}

/// The URL of a segment named `seg` of the playlist at `host + base` whose
/// query is `extra` (RFC 8216 resolution, with the playlist's query added to
/// segments that carry none).
pub open spec fn segment_url(host: Seq<char>, base: Seq<char>, extra: Seq<char>, seg: Seq<char>) -> Seq<
    char,
> {
    if starts_with(seg, "http://"@) || starts_with(seg, "https://"@) {
        seg
    } else {
        let base_url = replace(base, after_last_char(base, '/'), seg);
        if contains(seg, seq!['?']) {
            host + trim_end_char(base_url, '?')
        } else if extra.len() == 0 {
            host + base_url
        } else {
            host + trim_end_char(base_url, '?') + seq!['?'] + extra
        }
    }
}

impl HlsStream {
    pub fn new(
        id: String,
        host: String,
        base: String,
        extra: String,
        format: Format,
        codec: Codec,
        expire: i64,
    ) -> (r: Self)
        ensures
            r.id@ == id@,
            r.host@ == host@,
            r.base@ == base@,
            r.extra@ == extra@,
            r.format == format,
            r.codec == codec,
            r.expire == expire,
    {
        Self { id, host, base, extra, format, codec, expire }
    }

    /// The playlist URL: `host + base + extra`.
    pub fn index(&self) -> (r: String)
        ensures
            r@ == self.host@ + self.base@ + self.extra@,
    {
        let mut v = chars_of(self.host.as_str());
        append_str(&mut v, self.base.as_str());
        if !self.extra.as_str().is_empty() {
            append_str(&mut v, self.extra.as_str());
        } else {
            assert(self.extra@ =~= Seq::<char>::empty());
            assert(v@ + self.extra@ =~= v@);
        }
        string_of(&v)
    }

    /// The URL of the segment named `seg_name` in this playlist.
    pub fn ts_url(&self, seg_name: &str) -> (r: String)
        ensures
            r@ == segment_url(self.host@, self.base@, self.extra@, seg_name@),
    {
        let seg = chars_of(seg_name);
        if starts_with_str(&seg, "http://") || starts_with_str(&seg, "https://") {
            return string_of(&seg);
        }
        let base = chars_of(self.base.as_str());
        let file_name = after_last_char_exec(&base, '/');
        let base_url = replace_exec(&base, &file_name, &seg);
        let mut r = chars_of(self.host.as_str());
        if find_char_exec(&seg, '?').is_some() {
            let b = trim_end_char_exec(&base_url, '?');
            append_chars(&mut r, &b);
        } else if self.extra.as_str().is_empty() {
            append_chars(&mut r, &base_url);
        } else {
            let b = trim_end_char_exec(&base_url, '?');
            append_chars(&mut r, &b);
            r.push('?');
            append_str(&mut r, self.extra.as_str());
        }
        string_of(&r)
    }

    /// Whether the stream expires within `SAFE_EXPIRE` seconds of `now`.
    pub fn is_expired_at(&self, now: i64) -> (r: bool)
        ensures
            r == (self.expire > 0 && self.expire < now + SAFE_EXPIRE),
    {
        self.expire > 0 && self.expire - SAFE_EXPIRE < now
    }

    /// Whether the stream expires within `SAFE_EXPIRE` seconds of the current
    /// time: never for a stream whose `expire` is 0.
    pub fn is_expired(&self) -> (r: bool)
        ensures
            self.expire <= 0 ==> !r,
    {
        let now = now_unix_seconds();
        self.is_expired_at(now)
    }
}

} // verus!
