//! A Bilibili stream seen through the platform-neutral stream description.
use vstd::prelude::*;

use super::api::{query_expiry, BiliStream, UrlInfo};
use crate::errors::RecorderError;
use crate::media;
use crate::media::stream_info::{CdnNode, Codec, Format, Quality, StreamVariant};
use crate::platforms::PlatformType;
use crate::text::{append_str, chars_of, string_of};

verus! {

/// A Bilibili stream together with the quality it was requested at.
#[derive(Debug, Clone)]
pub struct BiliStreamInfo {
    pub inner: BiliStream,
    pub quality: Quality,
}

/// The URL of a stream on one host: `host + base_url`, then `?` and the
/// host's query when it has one.
pub open spec fn host_url(host: Seq<char>, base_url: Seq<char>, extra: Seq<char>) -> Seq<char> {
    if extra.len() == 0 {
        host + base_url
    } else {
        host + base_url + seq!['?'] + extra
    }
}

/// The neutral format of a Bilibili container: TS and fMP4 are HLS.
pub open spec fn neutral_format(f: media::Format) -> Format {
    match f {
        media::Format::Flv => Format::FLV,
        _ => Format::HLS,
    }
}

/// The neutral codec of a Bilibili codec.
pub open spec fn neutral_codec(c: media::Codec) -> Codec {
    match c {
        media::Codec::Avc => Codec::AVC,
        media::Codec::Hevc => Codec::HEVC,
    }
}

fn format_of(f: &media::Format) -> (r: Format)
    ensures
        r == neutral_format(*f),
{
    match f {
        media::Format::Flv => Format::FLV,
        _ => Format::HLS,
    }
}

fn codec_of(c: &media::Codec) -> (r: Codec)
    ensures
        r == neutral_codec(*c),
{
    match c {
        media::Codec::Avc => Codec::AVC,
        media::Codec::Hevc => Codec::HEVC,
    }
}

impl BiliStreamInfo {
    pub fn new(stream: BiliStream, quality: Quality) -> (r: Self)
        ensures
            r.inner == stream,
            r.quality == quality,
    {
        Self { inner: stream, quality }
    }

    /// The stream's URL on the host described by `url_info`.
    pub fn build_url(&self, url_info: &UrlInfo) -> (r: String)
        ensures
            r@ == host_url(url_info.host@, self.inner.base_url@, url_info.extra@),
    {
        let mut v = chars_of(url_info.host.as_str());
        append_str(&mut v, self.inner.base_url.as_str());
        if !url_info.extra.as_str().is_empty() {
            v.push('?');
            append_str(&mut v, url_info.extra.as_str());
        }
        string_of(&v)
    }

    /// The variant served by host `i`.
    fn variant_at(&self, i: usize) -> (r: StreamVariant)
        requires
            i < self.inner.url_info.len(),
        ensures
            r.url@ == host_url(
                self.inner.url_info@[i as int].host@,
                self.inner.base_url@,
                self.inner.url_info@[i as int].extra@,
            ),
            r.format == neutral_format(self.inner.format),
            r.codec == neutral_codec(self.inner.codec),
            r.quality == self.quality,
            r.bitrate is None,
    {
        StreamVariant {
            url: self.build_url(&self.inner.url_info[i]),
            format: format_of(&self.inner.format),
            codec: codec_of(&self.inner.codec),
            quality: self.quality,
            bitrate: None,
        }
    }

    /// The variant on the first host; `NoStreamAvailable` when there is none.
    pub fn primary_variant(&self) -> (r: Result<StreamVariant, RecorderError>)
        ensures
            self.inner.url_info.len() == 0 <==> r == Err::<StreamVariant, RecorderError>(
                RecorderError::NoStreamAvailable,
            ),
            r matches Ok(v) ==> {
                &&& v.url@ == host_url(
                    self.inner.url_info@[0].host@,
                    self.inner.base_url@,
                    self.inner.url_info@[0].extra@,
                )
                &&& v.format == neutral_format(self.inner.format)
                &&& v.codec == neutral_codec(self.inner.codec)
                &&& v.quality == self.quality
                &&& v.bitrate is None
            },
    {
        if self.inner.url_info.len() == 0 {
            return Err(RecorderError::NoStreamAvailable);
        }
        Ok(self.variant_at(0))
    }

    /// One variant per host, in host order.
    pub fn all_variants(&self) -> (r: Vec<StreamVariant>)
        ensures
            r.len() == self.inner.url_info.len(),
            forall|i: int|
                0 <= i < r.len() ==> {
                    &&& (#[trigger] r@[i]).url@ == host_url(
                        self.inner.url_info@[i].host@,
                        self.inner.base_url@,
                        self.inner.url_info@[i].extra@,
                    )
                    &&& r@[i].format == neutral_format(self.inner.format)
                    &&& r@[i].codec == neutral_codec(self.inner.codec)
                    &&& r@[i].quality == self.quality
                    &&& r@[i].bitrate is None
                },
    {
        let mut r: Vec<StreamVariant> = Vec::new();
        let mut i: usize = 0;
        while i < self.inner.url_info.len()
            invariant
                i <= self.inner.url_info.len(),
                r.len() == i,
                forall|j: int|
                    0 <= j < i ==> {
                        &&& (#[trigger] r@[j]).url@ == host_url(
                            self.inner.url_info@[j].host@,
                            self.inner.base_url@,
                            self.inner.url_info@[j].extra@,
                        )
                        &&& r@[j].format == neutral_format(self.inner.format)
                        &&& r@[j].codec == neutral_codec(self.inner.codec)
                        &&& r@[j].quality == self.quality
                        &&& r@[j].bitrate is None
                    },
            decreases self.inner.url_info.len() - i,
        {
            r.push(self.variant_at(i));
            i += 1;
        }
        r
    }

    /// The expiry of the first host's signed query, when it has a positive one.
    pub fn expires_at(&self) -> (r: Option<i64>)
        ensures
            r == (if self.inner.url_info.len() > 0 && query_expiry(
                self.inner.url_info@[0].extra@,
            ) > 0 {
                Some(query_expiry(self.inner.url_info@[0].extra@))
            } else {
                None::<i64>
            }),
    {
        if self.inner.url_info.len() == 0 {
            return None;
        }
        let e = self.inner.url_info[0].get_expire();
        if e > 0 {
            Some(e)
        } else {
            None
        }
    }

    /// The hosts, each with its position (truncated to a byte) as priority.
    pub fn cdn_nodes(&self) -> (r: Vec<CdnNode>)
        ensures
            r.len() == self.inner.url_info.len(),
            forall|i: int|
                0 <= i < r.len() ==> (#[trigger] r@[i]).host@ == self.inner.url_info@[i].host@
                    && r@[i].priority == i as u8,
    {
        let mut r: Vec<CdnNode> = Vec::new();
        let mut i: usize = 0;
        while i < self.inner.url_info.len()
            invariant
                i <= self.inner.url_info.len(),
                r.len() == i,
                forall|j: int|
                    0 <= j < i ==> (#[trigger] r@[j]).host@ == self.inner.url_info@[j].host@
                        && r@[j].priority == j as u8,
            decreases self.inner.url_info.len() - i,
        {
            r.push(CdnNode { host: self.inner.url_info[i].host.clone(), priority: i as u8 });
            i += 1;
        }
        r
    }

    /// The platform of this stream.
    pub fn platform(&self) -> (r: PlatformType)
        ensures
            r == PlatformType::BiliBili,
    {
        PlatformType::BiliBili
    }
}

} // verus!
