//! Huya pull requests: their referer, playlist URL resolution, and the
//! choice of the first pull candidate that serves stream data.
use vstd::prelude::*;

use crate::outside::{join_url, joined_url, parse_playlist_shape, playlist_shape, strings_view};
use crate::text::{chars_of, starts_with, starts_with_str};
use vstd::string::{StringExecFns, StringSliceAdditionalSpecFns};

verus! {

/// The page that issues the pull URLs expects the mobile player's referer.
pub const PULL_REFERER: &'static str = "https://m.huya.com/";

/// The URL of a playlist entry `uri` relative to the playlist at `base_url`:
/// absolute HTTP(S) URIs as they are, others joined to the base, and the URI
/// itself when joining fails.
pub open spec fn resolved_hls_url(base_url: Seq<char>, uri: Seq<char>) -> Seq<char> {
    if starts_with(uri, "http://"@) || starts_with(uri, "https://"@) {
        uri
    } else {
        match joined_url(base_url, uri) {
            Some(j) => j,
            None => uri,
        }
    }
}

pub fn resolve_hls_url(base_url: &str, uri: &str) -> (r: String)
    ensures
        r@ == resolved_hls_url(base_url@, uri@),
{
    let u = chars_of(uri);
    if starts_with_str(&u, "http://") || starts_with_str(&u, "https://") {
        return String::from_str(uri);
    }
    match join_url(base_url, uri) {
        Some(j) => j,
        None => String::from_str(uri),
    }
}


/// Whether the first bytes of an FLV answer are stream data: the `FLV`
/// magic.
pub fn is_flv_head(head: &[u8]) -> (r: bool)
    ensures
        r == (head@.len() >= 3 && head@[0] == 70u8 && head@[1] == 76u8 && head@[2] == 86u8),
{
    head.len() >= 3 && head[0] == 70u8 && head[1] == 76u8 && head[2] == 86u8
}

/// How many bytes of an FLV answer are read before its head is checked.
pub const FLV_PROBE_BYTES: usize = 9;

/// Whether an HLS playlist text is a media playlist: it lists a segment
/// (`#EXTINF`).
pub fn is_media_playlist(content: &str) -> (r: bool)
    ensures
        r == crate::text::contains(content@, "#EXTINF"@),
{
    let c = chars_of(content);
    crate::text::contains_str(&c, "#EXTINF")
}

/// A pull candidate: an FLV or an HLS URL of the stream on one CDN node.
#[derive(Debug, Clone, PartialEq, Eq)]
pub enum PullUrl {
    Flv(String),
    Hls(String),
}

/// What an HLS probe makes of the playlist a candidate URL served.
#[derive(Debug)]
pub enum HlsProbe {
    /// A media playlist: the candidate is usable.
    Usable,
    /// Neither a media playlist nor a master playlist.
    Unusable,
    /// A master playlist: the candidate is usable when one of these
    /// variant URLs (absolute, in order) serves a media playlist.
    FollowVariants(Vec<String>),
}

/// The absolute URLs of a master playlist's variants, in order.
pub open spec fn variant_urls(base_url: Seq<char>, vs: Seq<(Seq<char>, u64, Option<u64>, bool)>) -> Seq<Seq<char>> {
    vs.map_values(|v: (Seq<char>, u64, Option<u64>, bool)| resolved_hls_url(base_url, v.0))
}

/// The HLS probe's decision on the playlist `content` fetched from `url`:
/// usable when it lists a segment; a master playlist's variants to follow,
/// resolved against `url`; unusable otherwise.
pub fn hls_probe_plan(url: &str, content: &str) -> (r: HlsProbe)
    ensures
        crate::text::contains(content@, "#EXTINF"@) ==> r is Usable,
        !crate::text::contains(content@, "#EXTINF"@) ==> match playlist_shape(content.spec_bytes()) {
            Some((true, vs, _, _)) => r matches HlsProbe::FollowVariants(us) && strings_view(us@)
                == variant_urls(url@, vs),
            _ => r is Unusable,
        },
{
    if is_media_playlist(content) {
        return HlsProbe::Usable;
    }
    let shape = match parse_playlist_shape(content.as_bytes()) {
        Some(s) => s,
        None => return HlsProbe::Unusable,
    };
    if !shape.master {
        return HlsProbe::Unusable;
    }
    let ghost vs = (crate::outside::shape_view(Some(shape))->0).1;
    let mut urls: Vec<String> = Vec::new();
    let mut i: usize = 0;
    while i < shape.variants.len()
        invariant
            i <= shape.variants.len(),
            vs == shape.variants@.map_values(|v: crate::media::hls::MediaVariant| crate::outside::variant_view(v)),
            strings_view(urls@) == variant_urls(url@, vs.take(i as int)),
        decreases shape.variants.len() - i,
    {
        let u = resolve_hls_url(url, shape.variants[i].uri.as_str());
        proof {
            assert(vs.take(i + 1) =~= vs.take(i as int).push(vs[i as int]));
            assert(variant_urls(url@, vs.take(i + 1)) =~= variant_urls(url@, vs.take(i as int)).push(u@));
        }
        urls.push(u);
        proof {
            assert(strings_view(urls@) =~= variant_urls(url@, vs.take(i as int)).push(u@));
        }
        i += 1;
    }
    assert(vs.take(vs.len() as int) =~= vs);
    HlsProbe::FollowVariants(urls)
}

/// What the candidate choice asks for next.
#[derive(Debug, Clone, Copy, PartialEq, Eq)]
pub enum PickAction {
    /// Probe the candidate at this index.
    Probe(usize),
    /// Pull from the candidate at this index.
    Pick(usize),
    /// No candidate is usable.
    NoneUsable,
}

/// The index of the first usable candidate, given each candidate's probe
/// result in preference order.
pub open spec fn first_usable(results: Seq<bool>) -> Option<int>
    decreases results.len(),
{
    if results.len() == 0 {
        None
    } else if results[0] {
        Some(0)
    } else {
        match first_usable(results.drop_first()) {
            Some(i) => Some(i + 1),
            None => None,
        }
    }
}

/// The first step of choosing among `count` candidates: probe the first,
/// or give up when there is none.
pub fn pick_start(count: usize) -> (r: PickAction)
    ensures
        count == 0 ==> r == PickAction::NoneUsable,
        count > 0 ==> r == PickAction::Probe(0),
{
    if count == 0 {
        PickAction::NoneUsable
    } else {
        PickAction::Probe(0)
    }
}

/// The step after probing candidate `index` of `count`: pull from it when
/// it is usable, else probe the next one, else give up.
pub fn pick_next(count: usize, index: usize, usable: bool) -> (r: PickAction)
    requires
        index < count,
    ensures
        usable ==> r == PickAction::Pick(index),
        !usable && index + 1 < count ==> r == PickAction::Probe((index + 1) as usize),
        !usable && index + 1 == count ==> r == PickAction::NoneUsable,
{
    if usable {
        PickAction::Pick(index)
    } else if index + 1 < count {
        PickAction::Probe(index + 1)
    } else {
        PickAction::NoneUsable
    }
}

/// Where the steps end when candidate `index` is probed next and each
/// candidate's probe gives `results`: `pick_next` picks it when it is
/// usable and else moves to the next one, so the steps end in `Pick` of the
/// first usable candidate at or after `index`, or in `NoneUsable` (`None`).
pub open spec fn pick_from(results: Seq<bool>, index: int) -> Option<int>
    decreases results.len() - index,
    when 0 <= index <= results.len()
{
    if index == results.len() {
        None
    } else if results[index] {
        Some(index)
    } else {
        pick_from(results, index + 1)
    }
}

/// Driving `pick_start` and `pick_next` with the probe results `results`
/// picks exactly the first usable candidate.
pub proof fn picks_the_first_usable(results: Seq<bool>, index: int)
    requires
        0 <= index <= results.len(),
        forall|j: int| 0 <= j < index ==> !results[j],
    ensures
        pick_from(results, index) == first_usable(results),
    decreases results.len() - index,
{
    if index < results.len() && !results[index] {
        picks_the_first_usable(results, index + 1);
    } else {
        first_usable_is_first(results, index);
    }
}

proof fn first_usable_is_first(results: Seq<bool>, index: int)
    requires
        0 <= index <= results.len(),
        forall|j: int| 0 <= j < index ==> !results[j],
        index < results.len() ==> results[index],
    ensures
        first_usable(results) == (if index < results.len() {
            Some(index)
        } else {
            None::<int>
        }),
    decreases results.len(),
{
    if results.len() > 0 {
        if index > 0 {
            first_usable_is_first(results.drop_first(), index - 1);
        }
    }
}

} // verus!
