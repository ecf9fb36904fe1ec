//! The platform-independent description of a live stream variant.
use vstd::prelude::*;

use std::sync::Arc;

use crate::errors::RecorderError;
use crate::media::{Codec as CoreCodec, Format as CoreFormat, HlsStream};
use crate::outside::{form_decoded, form_pairs, parse_url, parsed_url, ParsedUrl, UrlParts};
use crate::text::{append_str, chars_of, parse_i64, parse_i64_exec, replace, replace_exec, string_of};

verus! {

/// Quality levels shared by all platforms, best first.
#[derive(Debug, Clone, Copy, PartialEq, Eq, PartialOrd, Ord, Structural)]
pub enum Quality {
    Origin,
    BluRay4K,
    BluRay,
    UltraHD,
    HD,
    SD,
    Smooth,
}

/// Transport format of a stream variant.
#[derive(Debug, Clone, Copy, PartialEq, Eq, Structural)]
pub enum Format {
    HLS,
    FLV,
    RTMP,
}

/// Video codec of a stream variant.
#[derive(Debug, Clone, Copy, PartialEq, Eq, Structural)]
pub enum Codec {
    AVC,
    HEVC,
}

/// A CDN node that serves a stream.
#[derive(Debug, Clone)]
pub struct CdnNode {
    pub host: String,
    pub priority: u8,
}

/// One way to pull a live stream.
#[derive(Debug, Clone)]
pub struct StreamVariant {
    pub url: String,
    pub format: Format,
    pub codec: Codec,
    pub quality: Quality,
    pub bitrate: Option<u64>,
}

/// How a stream variant is recorded.
#[derive(Debug, Clone)]
pub enum RecorderType {
    Hls(Arc<HlsStream>),
    Flv(String),
}

/// The platforms whose stream descriptions implement this model.
#[derive(Debug, Clone, Copy, PartialEq, Eq, Structural)]
pub enum PlatformType {
    Bilibili,
    Douyin,
    Kuaishou,
    Huya,
    TikTok,
}

impl PlatformType {
    pub open spec fn name(self) -> Seq<char> {
        match self {
            PlatformType::Bilibili => "bilibili"@,
            PlatformType::Douyin => "douyin"@,
            PlatformType::Kuaishou => "kuaishou"@,
            PlatformType::Huya => "huya"@,
            PlatformType::TikTok => "tiktok"@,
        }
    }

    pub fn as_str(&self) -> (r: &'static str)
        ensures
            r@ == self.name(),
    {
        match self {
            PlatformType::Bilibili => "bilibili",
            PlatformType::Douyin => "douyin",
            PlatformType::Kuaishou => "kuaishou",
            PlatformType::Huya => "huya",
            PlatformType::TikTok => "tiktok",
        }
    }
}

pub open spec fn or_empty(o: Option<Seq<char>>) -> Seq<char> {
    match o {
        Some(s) => s,
        None => Seq::empty(),
    }
}

/// The host of a URL (empty when it has none), or the text of the error
/// when the URL does not parse.
pub open spec fn url_host(url: Seq<char>) -> Result<Seq<char>, Seq<char>> {
    match parsed_url(url) {
        Ok(u) => Ok(or_empty(u.host)),
        Err(e) => Err("Invalid URL: "@ + e),
    }
}

/// The value of the first pair named `key`.
pub open spec fn first_value(pairs: Seq<(Seq<char>, Seq<char>)>, key: Seq<char>) -> Option<Seq<char>>
    decreases pairs.len(),
{
    if pairs.len() == 0 {
        None
    } else if pairs[0].0 == key {
        Some(pairs[0].1)
    } else {
        first_value(pairs.drop_first(), key)
    }
}

/// The `expire` query parameter of a URL as a number, 0 when it is missing
/// or not a number.
pub open spec fn query_expire(query: Option<Seq<char>>) -> i64 {
    match query {
        None => 0,
        Some(q) => match first_value(form_decoded(q), "expire"@) {
            Some(v) => match parse_i64(v) {
                Some(n) => n,
                None => 0,
            },
            None => 0,
        },
    }
}

/// The playlist path as kept in a stream's `base`: followed by `?` when the
/// URL has a query, so that `host + base + extra` is the URL again.
pub open spec fn base_of(path: Seq<char>, query: Option<Seq<char>>) -> Seq<char> {
    if or_empty(query).len() > 0 {
        path + "?"@
    } else {
        path
    }
}

/// The HLS stream that a parsed URL describes.
pub open spec fn stream_matches_url(
    s: HlsStream,
    u: UrlParts,
    live_id: Seq<char>,
    codec: Codec,
) -> bool {
    &&& s.id@ == live_id
    &&& s.host@ == u.scheme + "://"@ + or_empty(u.host)
    &&& s.base@ == base_of(u.path, u.query)
    &&& s.extra@ == or_empty(u.query)
    &&& s.expire == query_expire(u.query)
    &&& s.format == (match codec {
        Codec::AVC => CoreFormat::TS,
        Codec::HEVC => CoreFormat::FMP4,
    })
    &&& s.codec == (match codec {
        Codec::AVC => CoreCodec::Avc,
        Codec::HEVC => CoreCodec::Hevc,
    })
}

pub open spec fn api_error(r: RecorderError, msg: Seq<char>) -> bool {
    r matches RecorderError::ApiError { error } && error@ == msg
}

/// The text a parsed URL is written back as: scheme, `://`, host and path,
/// then `?` and the query when the query is not empty.
pub open spec fn url_text(u: UrlParts) -> Seq<char> {
    let q = or_empty(u.query);
    u.scheme + "://"@ + or_empty(u.host) + u.path + if q.len() > 0 {
        "?"@ + q
    } else {
        Seq::empty()
    }
}

/// A stream built from a parsed URL gives that URL back as its playlist
/// address: its `index` (host, base and extra) is the URL written back from
/// its parts.
pub proof fn stream_index_rebuilds_url(s: HlsStream, u: UrlParts, live_id: Seq<char>, codec: Codec)
    requires
        stream_matches_url(s, u, live_id, codec),
    ensures
        s.host@ + s.base@ + s.extra@ == url_text(u),
{
    let q = or_empty(u.query);
    if q.len() > 0 {
        assert(s.host@ + s.base@ + s.extra@ =~= u.scheme + "://"@ + or_empty(u.host) + u.path + ("?"@ + q));
    } else {
        assert(s.host@ + s.base@ + s.extra@ =~= u.scheme + "://"@ + or_empty(u.host) + u.path + Seq::<char>::empty());
    }
}

/// The host of a parsed URL, empty when it has none.
pub fn host_of_url(u: ParsedUrl) -> (r: String)
    ensures
        r@ == or_empty(u@.host),
{
    match u.host {
        Some(h) => h,
        None => String::new(),
    }
}

/// The host of `url`, or an `ApiError` naming the parse error.
pub fn extract_host(url: &str) -> (r: Result<String, RecorderError>)
    ensures
        match (r, url_host(url@)) {
            (Ok(h), Ok(sh)) => h@ == sh,
            (Err(e), Err(msg)) => api_error(e, msg),
            _ => false,
        },
{
    match parse_url(url) {
        Ok(u) => Ok(host_of_url(u)),
        Err(e) => {
            let mut msg = chars_of("Invalid URL: ");
            append_str(&mut msg, e.as_str());
            Err(RecorderError::ApiError { error: string_of(&msg) })
        },
    }
}

/// The first value named `key` in `pairs`.
fn find_pair_value(pairs: &Vec<(String, String)>, key: &str) -> (r: Option<String>)
    ensures
        match (r, first_value(pairs@.map_values(|p: (String, String)| (p.0@, p.1@)), key@)) {
            (Some(v), Some(sv)) => v@ == sv,
            (None, None) => true,
            _ => false,
        },
{
    let ghost pv = pairs@.map_values(|p: (String, String)| (p.0@, p.1@));
    let kv = chars_of(key);
    let mut i: usize = 0;
    assert(pv.subrange(0, pv.len() as int) =~= pv);
    while i < pairs.len()
        invariant
            i <= pairs.len(),
            pv == pairs@.map_values(|p: (String, String)| (p.0@, p.1@)),
            kv@ == key@,
            first_value(pv, key@) == first_value(pv.subrange(i as int, pv.len() as int), key@),
        decreases pairs.len() - i,
    {
        let ghost rest = pv.subrange(i as int, pv.len() as int);
        assert(rest[0] == (pairs@[i as int].0@, pairs@[i as int].1@));
        let k = chars_of(pairs[i].0.as_str());
        if crate::text::chars_eq(&k, &kv) {
            return Some(pairs[i].1.clone());
        }
        assert(rest.drop_first() =~= pv.subrange(i + 1, pv.len() as int));
        i += 1;
    }
    assert(pv.subrange(i as int, pv.len() as int) =~= Seq::<(Seq<char>, Seq<char>)>::empty());
    None
}

/// What `to_hls_stream` gives for an HLS variant with URL `url`: the URL
/// moved to `cdn_node`'s host when one is given, then parsed into a stream;
/// the errors of the host lookup or of the parse otherwise.
pub open spec fn hls_outcome(
    url: Seq<char>,
    codec: Codec,
    live_id: Seq<char>,
    cdn_node: Option<&CdnNode>,
    r: Result<HlsStream, RecorderError>,
) -> bool {
    let target = match cdn_node {
        Some(n) => match url_host(url) {
            Ok(h) => Ok::<Seq<char>, Seq<char>>(replace(url, h, n.host@)),
            Err(msg) => Err(msg),
        },
        None => Ok(url),
    };
    match target {
        Err(msg) => r matches Err(e) && api_error(e, msg),
        Ok(u) => match parsed_url(u) {
            Err(pe) => r matches Err(e) && api_error(e, "Invalid URL: "@ + pe),
            Ok(parts) => r matches Ok(s) && stream_matches_url(s, parts, live_id, codec),
        },
    }
}

/// The HLS part of a recorder type result: the stream, or the error.
pub open spec fn hls_part(r: Result<RecorderType, RecorderError>) -> Option<Result<HlsStream, RecorderError>> {
    match r {
        Ok(RecorderType::Hls(s)) => Some(Ok(*s)),
        Ok(RecorderType::Flv(_)) => None,
        Err(e) => Some(Err(e)),
    }
}

/// The HLS stream that a parsed variant URL describes: scheme and host, the
/// path (with `?` when there is a query) as base, the query as extra, and the
/// `expire` query value (0 when absent or not a number).
pub fn hls_stream_of_url(parsed: &ParsedUrl, live_id: String, codec: Codec) -> (r: HlsStream)
    ensures
        stream_matches_url(r, parsed@, live_id@, codec),
{
    let mut host = chars_of(parsed.scheme.as_str());
    append_str(&mut host, "://");
    match &parsed.host {
        Some(h) => append_str(&mut host, h.as_str()),
        None => {
            assert(host@ + or_empty(None) =~= host@);
        },
    }
    let extra = match &parsed.query {
        Some(q) => q.clone(),
        None => String::new(),
    };
    let expire: i64 = match &parsed.query {
        None => 0,
        Some(q) => {
            let pairs = form_pairs(q.as_str());
            match find_pair_value(&pairs, "expire") {
                Some(v) => {
                    let vv = chars_of(v.as_str());
                    match parse_i64_exec(&vv) {
                        Some(n) => n,
                        None => 0,
                    }
                },
                None => 0,
            }
        },
    };
    let format = match codec {
        Codec::AVC => CoreFormat::TS,
        Codec::HEVC => CoreFormat::FMP4,
    };
    let core_codec = match codec {
        Codec::AVC => CoreCodec::Avc,
        Codec::HEVC => CoreCodec::Hevc,
    };
    let mut base = chars_of(parsed.path.as_str());
    let ghost path = base@;
    if !extra.as_str().is_empty() {
        base.push('?');
        proof {
            reveal_strlit("?");
            assert(base@ =~= path + "?"@);
        }
    }
    proof {
        assert(extra@ == or_empty(parsed@.query));
        assert(base@ == base_of(parsed@.path, parsed@.query));
    }
    HlsStream::new(live_id, string_of(&host), string_of(&base), extra, format, core_codec, expire)
}

impl StreamVariant {
    /// The HLS stream this variant describes, pulled through `cdn_node`'s
    /// host when one is given. Only an HLS variant has one.
    pub fn to_hls_stream(&self, live_id: String, cdn_node: Option<&CdnNode>) -> (r: Result<
        HlsStream,
        RecorderError,
    >)
        ensures
            self.format != Format::HLS ==> (r matches Err(e) && api_error(
                e,
                "Stream is not HLS format"@,
            )),
            self.format == Format::HLS ==> hls_outcome(self.url@, self.codec, live_id@, cdn_node, r),
    {
        if self.format != Format::HLS {
            return Err(RecorderError::ApiError { error: String::from_str("Stream is not HLS format") });
        }
        let url = match cdn_node {
            Some(node) => {
                let host = extract_host(self.url.as_str())?;
                let u = chars_of(self.url.as_str());
                let h = chars_of(host.as_str());
                let n = chars_of(node.host.as_str());
                string_of(&replace_exec(&u, &h, &n))
            },
            None => self.url.clone(),
        };
        let parsed = match parse_url(url.as_str()) {
            Ok(p) => p,
            Err(e) => {
                let mut msg = chars_of("Invalid URL: ");
                append_str(&mut msg, e.as_str());
                return Err(RecorderError::ApiError { error: string_of(&msg) });
            },
        };
        Ok(hls_stream_of_url(&parsed, live_id, self.codec))
    }

    /// The FLV (or RTMP) URL of this variant.
    pub fn to_flv_url(&self) -> (r: Result<String, RecorderError>)
        ensures
            (self.format == Format::FLV || self.format == Format::RTMP) ==> (r matches Ok(u) && u@
                == self.url@),
            !(self.format == Format::FLV || self.format == Format::RTMP) ==> (r matches Err(e)
                && api_error(e, "Stream is not FLV or RTMP format"@)),
    {
        if self.format != Format::FLV && self.format != Format::RTMP {
            return Err(
                RecorderError::ApiError { error: String::from_str("Stream is not FLV or RTMP format") },
            );
        }
        Ok(self.url.clone())
    }

    /// The recorder type for this variant: HLS variants become an HLS stream
    /// (see `to_hls_stream`), FLV and RTMP variants their URL.
    pub fn to_recorder_type(&self, live_id: String, cdn_node: Option<&CdnNode>) -> (r: Result<
        RecorderType,
        RecorderError,
    >)
        ensures
            self.format == Format::HLS ==> (hls_part(r) matches Some(h) && hls_outcome(
                self.url@,
                self.codec,
                live_id@,
                cdn_node,
                h,
            )),
            self.format != Format::HLS ==> (r matches Ok(RecorderType::Flv(u)) && u@ == self.url@),
    {
        match self.format {
            Format::HLS => match self.to_hls_stream(live_id, cdn_node) {
                Ok(stream) => Ok(RecorderType::Hls(Arc::new(stream))),
                Err(e) => Err(e),
            },
            Format::FLV | Format::RTMP => {
                let url = self.to_flv_url()?;
                Ok(RecorderType::Flv(url))
            },
        }
    }
}

} // verus!
