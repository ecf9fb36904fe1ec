//! The parts of HLS recording that compute names, URLs and choices.
use vstd::prelude::*;

use crate::errors::RecorderError;
use crate::media::{Codec, Format, HlsStream};
use crate::outside::{capture, join_url, joined_url, parse_url, parsed_url, regex_capture, ParsedUrl, UrlParts};
use crate::text::{
    after_last_char, after_last_char_exec, append_chars, ascii_alnum, before_char, before_char_exec,
    chars_eq, chars_of, eq_str, find, find_char, find_char_exec, find_chars, is_ascii_alnum,
    parse_i64, parse_i64_exec, push_decimal, decimal, rfind_char, rfind_char_exec, slice_chars,
    string_of, trim, trim_start, trim_end, trim_str, parse_u64, parse_u64_exec, all_digits,
    decimal_digits_value, decimal_parses_back,
};

verus! {

/// How an HLS recorder picks the media playlist of a master playlist.
#[derive(Clone, Copy, Debug, Default, PartialEq, Eq, Structural)]
pub enum HlsVariantSelection {
    /// Preserve the first media variant selected for a recording.
    #[default]
    First,
    /// Track the highest available bandwidth; variant changes end the current
    /// recording segment so a higher-quality stream can start cleanly.
    HighestBandwidth,
}

// ---------------------------------------------------------------------------
// Local segment names
// ---------------------------------------------------------------------------

/// The characters before the first `a` or `b` (all of `s` when neither
/// occurs): the first item of `s.split([a, b])`.
pub open spec fn before_either(s: Seq<char>, a: char, b: char) -> Seq<char>
    decreases s.len(),
{
    if s.len() == 0 || s[0] == a || s[0] == b {
        Seq::empty()
    } else {
        seq![s[0]] + before_either(s.drop_first(), a, b)
    }
}

pub fn before_either_exec(s: &[char], a: char, b: char) -> (r: Vec<char>)
    ensures
        r@ == before_either(s@, a, b),
{
    let mut i: usize = 0;
    assert(s@.take(0) =~= Seq::<char>::empty());
    assert(s@.subrange(0, s.len() as int) =~= s@);
    while i < s.len() && s[i] != a && s[i] != b
        invariant
            i <= s.len(),
            before_either(s@, a, b) == s@.take(i as int) + before_either(
                s@.subrange(i as int, s.len() as int),
                a,
                b,
            ),
        decreases s.len() - i,
    {
        proof {
            let rest = s@.subrange(i as int, s.len() as int);
            assert(rest.drop_first() =~= s@.subrange(i + 1, s.len() as int));
            assert(s@.take(i as int) + seq![s@[i as int]] =~= s@.take(i + 1));
        }
        i += 1;
    }
    proof {
        let rest = s@.subrange(i as int, s.len() as int);
        assert(before_either(rest, a, b) =~= Seq::<char>::empty());
        assert(s@.take(i as int) + Seq::<char>::empty() =~= s@.take(i as int));
        assert(s@.subrange(0, s.len() as int) =~= s@);
    }
    slice_chars(s, 0, i)
}

/// The extension used for a segment's local file: the text after the last
/// `.` of the URI's file name (query and fragment removed) when it is one to
/// eight ASCII letters or digits, `ts` otherwise.
pub open spec fn segment_extension(uri: Seq<char>) -> Seq<char> {
    let path = before_either(uri, '?', '#');
    let basename = after_last_char(path, '/');
    match rfind_char(basename, '.') {
        Some(k) => {
            let ext = basename.subrange(k + 1, basename.len() as int);
            if 0 < ext.len() <= 8 && forall|i: int| 0 <= i < ext.len() ==> is_ascii_alnum(#[trigger] ext[i]) {
                ext
            } else {
                "ts"@
            }
        },
        None => "ts"@,
    }
}

/// The local file name of the segment with media sequence `sequence`:
/// `segment-{sequence}.{extension}`. Distinct sequences give distinct names,
/// so a later download never overwrites an earlier playlist entry.
pub open spec fn local_segment_name(sequence: u64, uri: Seq<char>) -> Seq<char> {
    "segment-"@ + decimal(sequence as nat) + seq!['.'] + segment_extension(uri)
}

/// Distinct media sequences get distinct local file names, whatever their
/// URIs: a later segment never overwrites an earlier one.
pub proof fn local_segment_names_distinct(a: u64, b: u64, uri_a: Seq<char>, uri_b: Seq<char>)
    requires
        a != b,
    ensures
        local_segment_name(a, uri_a) != local_segment_name(b, uri_b),
{
    reveal_strlit("segment-");
    let p = "segment-"@;
    let da = decimal(a as nat);
    let db = decimal(b as nat);
    crate::text::decimal_digits_value(a as nat);
    crate::text::decimal_digits_value(b as nat);
    let sa = local_segment_name(a, uri_a);
    let sb = local_segment_name(b, uri_b);
    if sa == sb {
        if da.len() < db.len() {
            assert(sa[(p.len() + da.len()) as int] == '.');
            assert(sb[(p.len() + da.len()) as int] == db[da.len() as int]);
            assert(crate::text::is_ascii_digit(db[da.len() as int]));
        } else if db.len() < da.len() {
            assert(sb[(p.len() + db.len()) as int] == '.');
            assert(sa[(p.len() + db.len()) as int] == da[db.len() as int]);
            assert(crate::text::is_ascii_digit(da[db.len() as int]));
        } else {
            assert(sa.subrange(p.len() as int, (p.len() + da.len()) as int) =~= da);
            assert(sb.subrange(p.len() as int, (p.len() + db.len()) as int) =~= db);
            crate::text::decimal_injective(a as nat, b as nat);
        }
    }
}

fn all_ascii_alnum(s: &[char]) -> (r: bool)
    ensures
        r == forall|i: int| 0 <= i < s.len() ==> is_ascii_alnum(#[trigger] s@[i]),
{
    let mut i: usize = 0;
    while i < s.len()
        invariant
            i <= s.len(),
            forall|j: int| 0 <= j < i ==> is_ascii_alnum(#[trigger] s@[j]),
        decreases s.len() - i,
    {
        if !ascii_alnum(s[i]) {
            return false;
        }
        i += 1;
    }
    true
}

pub fn local_segment_filename(sequence: u64, uri: &str) -> (r: String)
    ensures
        r@ == local_segment_name(sequence, uri@),
{
    let u = chars_of(uri);
    let path = before_either_exec(&u, '?', '#');
    let basename = after_last_char_exec(&path, '/');
    let ext: Vec<char> = match rfind_char_exec(&basename, '.') {
        Some(k) => {
            let e = slice_chars(&basename, k + 1, basename.len());
            if e.len() > 0 && e.len() <= 8 && all_ascii_alnum(&e) {
                e
            } else {
                chars_of("ts")
            }
        },
        None => chars_of("ts"),
    };
    let mut r = chars_of("segment-");
    push_decimal(&mut r, sequence);
    r.push('.');
    append_chars(&mut r, &ext);
    string_of(&r)
}

// ---------------------------------------------------------------------------
// Streams built from variant URLs
// ---------------------------------------------------------------------------

/// The pattern that finds the expiry time in a variant URL.
pub open spec fn expire_pattern() -> Seq<char> {
    "(?:expires=|/expire/)(\\d+)"@
}

/// The expiry in a variant URL: the first `expires=N` or `/expire/N` of its
/// query, else of the rest of it, as a number; 0 when there is none or it
/// does not fit.
pub open spec fn variant_expire(body: Seq<char>, extra: Seq<char>) -> i64 {
    let found = match regex_capture(expire_pattern(), extra, 1) {
        Some(c) => Some(c),
        None => regex_capture(expire_pattern(), body, 1),
    };
    match found {
        Some(c) => match parse_i64(c) {
            Some(n) => n,
            None => 0,
        },
        None => 0,
    }
}

/// The HLS stream for a variant URL `scheme://host/path?query`:
/// host `scheme://host`, base `/path` (with `?` appended when there is a
/// query) and extra `query`.
pub open spec fn variant_stream_parts(url: Seq<char>) -> Option<(Seq<char>, Seq<char>, Seq<char>)> {
    let (body, extra) = match find_char(url, '?') {
        Some(k) => (url.take(k), url.subrange(k + 1, url.len() as int)),
        None => (url, Seq::empty()),
    };
    match find(body, "://"@) {
        None => None,
        Some(k) => {
            let after = body.subrange(k + 3, body.len() as int);
            let (host, base) = match find_char(after, '/') {
                Some(p) => (body.take(k + 3) + after.take(p), after.subrange(p, after.len() as int)),
                None => (body, "/"@),
            };
            let base = if extra.len() > 0 {
                base.push('?')
            } else {
                base
            };
            Some((host, base, extra))
        },
    }
}

/// A URL without its query: what comes before the first `?`.
pub open spec fn url_body(url: Seq<char>) -> Seq<char> {
    match find_char(url, '?') {
        Some(k) => url.take(k),
        None => url,
    }
}

/// A stream built from a variant URL gives that URL back: for a URL
/// `scheme://host/path` (a `/` after the host) with, when it has a `?`, a
/// non-empty query after it, the parts that `construct_stream_from_variant`
/// puts in the stream's host, base and extra join to the URL again, so the
/// stream's `index()` (`host + base + extra`) is the URL.
pub proof fn variant_stream_rebuilds_url(url: Seq<char>)
    requires
        find(url_body(url), "://"@) matches Some(k) && find_char(
            url_body(url).subrange(k + 3, url_body(url).len() as int),
            '/',
        ) is Some,
        find_char(url, '?') matches Some(q) ==> q + 1 < url.len(),
    ensures
        variant_stream_parts(url) matches Some((h, b, e)) && h + b + e == url,
{
    reveal_strlit("://");
    crate::text::lemma_find_from(url, seq!['?'], 0);
    let body = url_body(url);
    let k = find(body, "://"@)->0;
    crate::text::lemma_find_from(body, "://"@, 0);
    let after = body.subrange(k + 3, body.len() as int);
    let p = find_char(after, '/')->0;
    crate::text::lemma_find_from(after, seq!['/'], 0);
    assert(0 <= p < after.len());
    assert(body.take(k + 3) + after.take(p) + after.subrange(p, after.len() as int) =~= body);
    match find_char(url, '?') {
        Some(q) => {
            assert(url.subrange(q, q + 1) == seq!['?']);
            assert(url.subrange(q, q + 1)[0] == url[q]);
            assert(url[q] == '?');
            let extra = url.subrange(q + 1, url.len() as int);
            assert(extra.len() > 0);
            assert(body + seq!['?'] + extra =~= url);
            assert(after.subrange(p, after.len() as int).push('?') =~= after.subrange(p, after.len() as int) + seq!['?']);
        },
        None => {},
    }
}

/// The round trip through a stream: when `s` is a stream that
/// `construct_stream_from_variant` builds from such a URL (its host, base
/// and extra are the URL's parts), the playlist URL `s.index()` returns
/// (`host + base + extra`) is the URL itself.
pub proof fn constructed_stream_index_is_the_url(url: Seq<char>, s: HlsStream)
    requires
        find(url_body(url), "://"@) matches Some(k) && find_char(
            url_body(url).subrange(k + 3, url_body(url).len() as int),
            '/',
        ) is Some,
        find_char(url, '?') matches Some(q) ==> q + 1 < url.len(),
        variant_stream_parts(url) matches Some((h, b, e)) && s.host@ == h && s.base@ == b && s.extra@ == e,
    ensures
        s.host@ + s.base@ + s.extra@ == url,
{
    variant_stream_rebuilds_url(url);
}

/// Builds the HLS stream that pulls `variant_url`.
pub fn construct_stream_from_variant(id: &str, variant_url: &str, format: Format, codec: Codec) -> (r:
    Result<HlsStream, RecorderError>)
    ensures
        match variant_stream_parts(variant_url@) {
            None => r matches Err(RecorderError::M3u8ParseFailed { content }) && content@
                == "Invalid URL format: missing protocol"@,
            Some((host, base, extra)) => r matches Ok(s) && s.id@ == id@ && s.host@ == host
                && s.base@ == base && s.extra@ == extra && s.format == format && s.codec == codec
                && s.expire == variant_expire(
                match find_char(variant_url@, '?') {
                    Some(k) => variant_url@.take(k),
                    None => variant_url@,
                },
                extra,
            ),
        },
{
    let url = chars_of(variant_url);
    let (body, extra) = match find_char_exec(&url, '?') {
        Some(k) => (slice_chars(&url, 0, k), slice_chars(&url, k + 1, url.len())),
        None => (slice_chars(&url, 0, url.len()), Vec::new()),
    };
    proof {
        assert(url@.subrange(0, url@.len() as int) =~= url@);
        assert(extra@.len() == 0 ==> extra@ =~= Seq::<char>::empty());
    }
    let sep = chars_of("://");
    let k = match find_chars(&body, &sep) {
        Some(k) => k,
        None => {
            return Err(
                RecorderError::M3u8ParseFailed {
                    content: String::from_str("Invalid URL format: missing protocol"),
                },
            );
        },
    };
    proof {
        reveal_strlit("://");
    }
    let after = slice_chars(&body, k + 3, body.len());
    let (host, mut base) = match find_char_exec(&after, '/') {
        Some(p) => {
            let mut h = slice_chars(&body, 0, k + 3);
            let a = slice_chars(&after, 0, p);
            append_chars(&mut h, &a);
            (h, slice_chars(&after, p, after.len()))
        },
        None => (slice_chars(&body, 0, body.len()), chars_of("/")),
    };
    proof {
        assert(body@.subrange(0, body@.len() as int) =~= body@);
    }
    if extra.len() > 0 {
        base.push('?');
    }
    let body_s = string_of(&body);
    let extra_s = string_of(&extra);
    let pattern = "(?:expires=|/expire/)(\\d+)";
    let found = match capture(pattern, extra_s.as_str(), 1) {
        Some(c) => Some(c),
        None => capture(pattern, body_s.as_str(), 1),
    };
    let expire: i64 = match found {
        Some(c) => {
            let cv = chars_of(c.as_str());
            match parse_i64_exec(&cv) {
                Some(n) => n,
                None => 0,
            }
        },
        None => 0,
    };
    Ok(HlsStream::new(String::from_str(id), string_of(&host), string_of(&base), extra_s, format, codec, expire))
}

/// The key that identifies a variant across playlist reloads: `itag:N` when
/// its path carries a YouTube itag, else its path (or, when the URL does not
/// parse, the part before the query).
pub open spec fn variant_key(variant_url: Seq<char>) -> Seq<char> {
    match parsed_url(variant_url) {
        Err(_) => before_char(variant_url, '?'),
        Ok(u) => parts_key(u),
    }
}

/// The key of a parsed variant URL: `itag:N` when its path carries a
/// YouTube itag, else its path.
pub open spec fn parts_key(u: UrlParts) -> Seq<char> {
    let segs = match u.path_segments {
        Some(s) => s,
        None => Seq::empty(),
    };
    match first_itag(segs) {
        Some(tag) => "itag:"@ + tag,
        None => u.path,
    }
}

/// The segment after the first `itag` segment that has a successor.
pub open spec fn first_itag(segs: Seq<Seq<char>>) -> Option<Seq<char>>
    decreases segs.len(),
{
    if segs.len() < 2 {
        None
    } else if segs[0] == "itag"@ {
        Some(segs[1])
    } else {
        first_itag(segs.drop_first())
    }
}

pub fn variant_identity(variant_url: &str) -> (r: String)
    ensures
        r@ == variant_key(variant_url@),
{
    match parse_url(variant_url) {
        Err(_) => {
            let v = chars_of(variant_url);
            string_of(&before_char_exec(&v, '?'))
        },
        Ok(u) => parsed_variant_identity(u),
    }
}

/// The key of a variant whose URL parsed to `u` (see `parts_key`).
pub fn parsed_variant_identity(u: ParsedUrl) -> (r: String)
    ensures
        r@ == parts_key(u@),
{
    let ghost uv = u@;
    let path = u.path;
    let segs: Vec<String> = match u.path_segments {
        Some(s) => s,
        None => Vec::new(),
    };
    assert(path@ == uv.path);
    let ghost sv = crate::outside::strings_view(segs@);
    proof {
        assert(segs@.len() == 0 ==> sv =~= Seq::<Seq<char>>::empty());
    }
    let mut i: usize = 0;
    assert(sv.subrange(0, sv.len() as int) =~= sv);
    while segs.len() >= 2 && i < segs.len() - 1
        invariant
            i <= segs.len(),
            sv == crate::outside::strings_view(segs@),
            path@ == uv.path,
            uv == u@,
            sv == (match uv.path_segments {
                Some(x) => x,
                None => Seq::<Seq<char>>::empty(),
            }),
            first_itag(sv) == first_itag(sv.subrange(i as int, sv.len() as int)),
        decreases segs.len() - i,
    {
        let ghost rest = sv.subrange(i as int, sv.len() as int);
        let a = chars_of(segs[i].as_str());
        if eq_str(&a, "itag") {
            assert(rest[0] == segs@[i as int]@);
            assert(rest[1] == segs@[i + 1]@);
            assert(first_itag(rest) == Some(segs@[i + 1]@));
            let mut r = chars_of("itag:");
            crate::text::append_str(&mut r, segs[i + 1].as_str());
            assert(r@ == "itag:"@ + segs@[i + 1]@);
            return string_of(&r);
        }
        assert(rest[0] == segs@[i as int]@);
        assert(rest.drop_first() =~= sv.subrange(i + 1, sv.len() as int));
        i += 1;
    }
    path
}

/// The absolute URL of a variant `variant_uri` listed in the master
/// playlist at `master_url`.
pub fn resolve_variant_url(master_url: &str, variant_uri: &str) -> (r: Result<String, RecorderError>)
    ensures
        parsed_url(master_url@) is Err ==> (r matches Err(RecorderError::M3u8ParseFailed { content })
            && content@ == "Invalid master playlist URL"@),
        parsed_url(master_url@) is Ok ==> match joined_url(master_url@, variant_uri@) {
            Some(j) => r matches Ok(u) && u@ == j,
            None => r matches Err(RecorderError::M3u8ParseFailed { content }) && content@
                == "Invalid HLS variant URI"@,
        },
{
    if parse_url(master_url).is_err() {
        return Err(
            RecorderError::M3u8ParseFailed { content: String::from_str("Invalid master playlist URL") },
        );
    }
    match join_url(master_url, variant_uri) {
        Some(u) => Ok(u),
        None => Err(
            RecorderError::M3u8ParseFailed { content: String::from_str("Invalid HLS variant URI") },
        ),
    }
}

// ---------------------------------------------------------------------------
// Variant choice
// ---------------------------------------------------------------------------

/// A variant of an HLS master playlist, as far as the choice reads it.
#[derive(Clone, Debug)]
pub struct MediaVariant {
    pub uri: String,
    pub bandwidth: u64,
    pub average_bandwidth: Option<u64>,
    pub is_i_frame: bool,
}

pub open spec fn variant_rate(v: MediaVariant) -> u64 {
    match v.average_bandwidth {
        Some(b) => b,
        None => v.bandwidth,
    }
}

/// The last non-I-frame variant of greatest rate (average bandwidth, else
/// bandwidth), as `Iterator::max_by_key` picks it.
pub open spec fn is_best_variant(vs: Seq<MediaVariant>, i: int) -> bool {
    &&& 0 <= i < vs.len()
    &&& !vs[i].is_i_frame
    &&& forall|j: int| 0 <= j < vs.len() && !vs[j].is_i_frame ==> variant_rate(#[trigger] vs[j]) <= variant_rate(vs[i])
    &&& forall|j: int| i < j < vs.len() && !vs[j].is_i_frame ==> variant_rate(#[trigger] vs[j]) < variant_rate(vs[i])
}

pub fn best_media_variant(variants: &[MediaVariant]) -> (r: Option<usize>)
    ensures
        r matches Some(i) ==> is_best_variant(variants@, i as int),
        r is None ==> forall|j: int| 0 <= j < variants.len() ==> #[trigger] variants@[j].is_i_frame,
{
    let mut best: Option<usize> = None;
    let mut i: usize = 0;
    while i < variants.len()
        invariant
            i <= variants.len(),
            best matches Some(b) ==> b < i && !variants@[b as int].is_i_frame && (forall|j: int|
                0 <= j < i && !variants@[j].is_i_frame ==> variant_rate(#[trigger] variants@[j])
                    <= variant_rate(variants@[b as int])) && (forall|j: int|
                b < j < i && !variants@[j].is_i_frame ==> variant_rate(#[trigger] variants@[j])
                    < variant_rate(variants@[b as int])),
            best is None ==> forall|j: int| 0 <= j < i ==> #[trigger] variants@[j].is_i_frame,
        decreases variants.len() - i,
    {
        let v = &variants[i];
        if !v.is_i_frame {
            let rate = match v.average_bandwidth {
                Some(b) => b,
                None => v.bandwidth,
            };
            match best {
                None => {
                    best = Some(i);
                },
                Some(b) => {
                    let w = &variants[b];
                    let best_rate = match w.average_bandwidth {
                        Some(x) => x,
                        None => w.bandwidth,
                    };
                    if rate >= best_rate {
                        best = Some(i);
                    }
                },
            }
        }
        i += 1;
    }
    best
}

/// The variant that `selection` picks: the first non-I-frame variant, or the
/// best one by bandwidth.
pub fn select_media_variant(variants: &[MediaVariant], selection: HlsVariantSelection) -> (r: Option<
    usize,
>)
    ensures
        selection == HlsVariantSelection::HighestBandwidth ==> match r {
            Some(i) => is_best_variant(variants@, i as int),
            None => forall|j: int| 0 <= j < variants.len() ==> #[trigger] variants@[j].is_i_frame,
        },
        selection == HlsVariantSelection::First ==> match r {
            Some(i) => i < variants.len() && !variants@[i as int].is_i_frame && forall|j: int|
                0 <= j < i ==> #[trigger] variants@[j].is_i_frame,
            None => forall|j: int| 0 <= j < variants.len() ==> #[trigger] variants@[j].is_i_frame,
        },
{
    match selection {
        HlsVariantSelection::HighestBandwidth => best_media_variant(variants),
        HlsVariantSelection::First => {
            let mut i: usize = 0;
            while i < variants.len()
                invariant
                    i <= variants.len(),
                    selection == HlsVariantSelection::First,
                    forall|j: int| 0 <= j < i ==> #[trigger] variants@[j].is_i_frame,
                decreases variants.len() - i,
            {
                if !variants[i].is_i_frame {
                    return Some(i);
                }
                i += 1;
            }
            None
        },
    }
}

/// Whether the variant key now chosen may continue the recording: a
/// recording that already follows one variant ends when the best variant is
/// another one, so that the new stream starts a segment of its own.
pub fn check_variant_key(previous: &Option<String>, selected: &str) -> (r: Result<(), RecorderError>)
    ensures
        (previous matches Some(p) && p@ != selected@) ==> (r matches Err(RecorderError::ResolutionChanged {
            err,
        }) && err@ == "Highest-bandwidth HLS variant changed; starting a new recording segment"@),
        !(previous matches Some(p) && p@ != selected@) ==> r is Ok,
{
    match previous {
        Some(p) => {
            let a = chars_of(p.as_str());
            if eq_str(&a, selected) {
                Ok(())
            } else {
                Err(
                    RecorderError::ResolutionChanged {
                        err: "Highest-bandwidth HLS variant changed; starting a new recording segment".to_string(),
                    },
                )
            }
        },
        None => Ok(()),
    }
}

/// The absolute URL of a variant, when the master URL parses and the
/// variant's URI joins onto it.
pub open spec fn resolved_variant(master_url: Seq<char>, uri: Seq<char>) -> Option<Seq<char>> {
    if parsed_url(master_url) is Ok {
        joined_url(master_url, uri)
    } else {
        None
    }
}

/// Whether a variant is the media variant with the given key.
pub open spec fn is_pinned(v: MediaVariant, master_url: Seq<char>, key: Seq<char>) -> bool {
    &&& !v.is_i_frame
    &&& resolved_variant(master_url, v.uri@) matches Some(u) && variant_key(u) == key
}

/// The first media variant of a master playlist whose key is `key`: the
/// variant that a recording follows, found again after a reload.
pub fn pinned_variant(variants: &[MediaVariant], master_url: &str, key: &str) -> (r: Option<usize>)
    ensures
        r matches Some(i) ==> i < variants.len() && is_pinned(variants@[i as int], master_url@, key@)
            && forall|j: int| 0 <= j < i ==> !is_pinned(#[trigger] variants@[j], master_url@, key@),
        r is None ==> forall|j: int| 0 <= j < variants.len() ==> !is_pinned(#[trigger] variants@[j], master_url@, key@),
{
    let mut i: usize = 0;
    while i < variants.len()
        invariant
            i <= variants.len(),
            forall|j: int| 0 <= j < i ==> !is_pinned(#[trigger] variants@[j], master_url@, key@),
        decreases variants.len() - i,
    {
        let v = &variants[i];
        if !v.is_i_frame {
            if let Ok(url) = resolve_variant_url(master_url, v.uri.as_str()) {
                let identity = chars_of(variant_identity(url.as_str()).as_str());
                if eq_str(&identity, key) {
                    return Some(i);
                }
            }
        }
        i += 1;
    }
    None
}

/// The variant to follow after a reload of the master playlist: the pinned
/// one if it is still listed (second item `true`), else the one that
/// `selection` picks.
pub fn refreshed_variant(
    variants: &[MediaVariant],
    master_url: &str,
    key: &str,
    selection: HlsVariantSelection,
) -> (r: Option<(usize, bool)>)
    ensures
        r matches Some((i, true)) ==> i < variants.len() && is_pinned(variants@[i as int], master_url@, key@),
        (exists|j: int| 0 <= j < variants.len() && is_pinned(#[trigger] variants@[j], master_url@, key@))
            ==> r matches Some((_, true)),
        r matches Some((i, false)) ==> (forall|j: int| 0 <= j < variants.len() ==> !is_pinned(
            #[trigger] variants@[j],
            master_url@,
            key@,
        )) && (selection == HlsVariantSelection::HighestBandwidth ==> is_best_variant(variants@, i as int))
            && (selection == HlsVariantSelection::First ==> i < variants.len()
            && !variants@[i as int].is_i_frame && forall|j: int| 0 <= j < i ==> #[trigger] variants@[j].is_i_frame),
        r is None ==> forall|j: int| 0 <= j < variants.len() ==> #[trigger] variants@[j].is_i_frame,
{
    match pinned_variant(variants, master_url, key) {
        Some(i) => Some((i, true)),
        None => match select_media_variant(variants, selection) {
            Some(i) => Some((i, false)),
            None => None,
        },
    }
}

/// The rate of a variant given as values: its average bandwidth, else its
/// bandwidth.
pub open spec fn view_rate(v: (Seq<char>, u64, Option<u64>, bool)) -> u64 {
    match v.2 {
        Some(b) => b,
        None => v.1,
    }
}

/// `is_best_variant` over variants given as values.
pub open spec fn is_best_view(vs: Seq<(Seq<char>, u64, Option<u64>, bool)>, i: int) -> bool {
    &&& 0 <= i < vs.len()
    &&& !vs[i].3
    &&& forall|j: int| 0 <= j < vs.len() && !vs[j].3 ==> view_rate(#[trigger] vs[j]) <= view_rate(vs[i])
    &&& forall|j: int| i < j < vs.len() && !vs[j].3 ==> view_rate(#[trigger] vs[j]) < view_rate(vs[i])
}

/// Reads a fetched playlist's shape (see `playlist_shape`); a playlist that
/// does not parse is refused with a preview of its content.
pub fn read_playlist_shape(bytes: &[u8]) -> (r: Result<crate::outside::PlaylistShape, RecorderError>)
    ensures
        match crate::outside::playlist_shape(bytes@) {
            Some(sh) => r matches Ok(s) && crate::outside::shape_view(Some(s)) == Some(sh),
            None => r matches Err(RecorderError::M3u8ParseFailed { content }) && content@
                == crate::outside::debug_escaped(
                crate::media::playlist::bounded_preview(crate::outside::lossy_text(bytes@)),
            ),
        },
{
    match crate::outside::parse_playlist_shape(bytes) {
        Some(s) => Ok(s),
        None => Err(RecorderError::M3u8ParseFailed { content: crate::media::playlist::playlist_content_preview(bytes) }),
    }
}

/// The index of the variant that `selection` picks in a fetched master
/// playlist (see `select_media_variant`); `None` for a playlist that does
/// not parse, a media playlist, or a master without a media variant.
pub fn master_variant_index(bytes: &[u8], selection: HlsVariantSelection) -> (r: Option<usize>)
    ensures
        !(crate::outside::playlist_shape(bytes@) matches Some((true, _, _, _))) ==> r is None,
        crate::outside::playlist_shape(bytes@) matches Some((true, vs, _, _)) ==> {
            &&& r matches Some(i) ==> i < vs.len() && !vs[i as int].3
            &&& selection == HlsVariantSelection::First ==> (r matches Some(i) ==> forall|j: int|
                0 <= j < i ==> #[trigger] vs[j].3)
            &&& selection == HlsVariantSelection::HighestBandwidth ==> (r matches Some(i) ==> is_best_view(vs, i as int))
            &&& r is None ==> forall|j: int| 0 <= j < vs.len() ==> #[trigger] vs[j].3
        },
{
    let shape = match crate::outside::parse_playlist_shape(bytes) {
        Some(s) => s,
        None => return None,
    };
    if !shape.master {
        return None;
    }
    let ghost vs = (crate::outside::shape_view(Some(shape))->0).1;
    assert(forall|j: int| 0 <= j < shape.variants@.len() ==> #[trigger] vs[j] == crate::outside::variant_view(shape.variants@[j]));
    select_media_variant(shape.variants.as_slice(), selection)
}

/// The media sequence and segment URIs of a fetched media playlist, in
/// order; `None` for a playlist that does not parse or a master playlist.
pub fn media_segments(bytes: &[u8]) -> (r: Option<(u64, Vec<String>)>)
    ensures
        match crate::outside::playlist_shape(bytes@) {
            Some((false, _, sequence, uris)) => r matches Some(m) && m.0 == sequence
                && crate::outside::strings_view(m.1@) == uris,
            _ => r is None,
        },
{
    match crate::outside::parse_playlist_shape(bytes) {
        Some(shape) => if shape.master {
            None
        } else {
            Some((shape.media_sequence, shape.segment_uris))
        },
        None => None,
    }
}

// ---------------------------------------------------------------------------
// Ad windows
// ---------------------------------------------------------------------------

/// A time window (Unix milliseconds) during which a stream plays an ad.
#[derive(Clone, Debug, PartialEq, Eq)]
pub struct AdTimeRange {
    pub id: String,
    pub start_ms: i64,
    pub end_ms: i64,
}

impl View for AdTimeRange {
    type V = (Seq<char>, i64, i64);

    open spec fn view(&self) -> (Seq<char>, i64, i64) {
        (self.id@, self.start_ms, self.end_ms)
    }
}

pub open spec fn ranges_view(rs: Seq<AdTimeRange>) -> Seq<(Seq<char>, i64, i64)> {
    rs.map_values(|r: AdTimeRange| r@)
}

/// The first index of a window with the same id and start as `r`.
pub open spec fn same_window_index(rs: Seq<(Seq<char>, i64, i64)>, r: (Seq<char>, i64, i64), i: int) -> Option<
    int,
>
    decreases rs.len() - i,
{
    if i < 0 || i >= rs.len() {
        None
    } else if rs[i].0 == r.0 && rs[i].1 == r.1 {
        Some(i)
    } else {
        same_window_index(rs, r, i + 1)
    }
}

/// Records `r` in the windows `rs`: a window with the same id and start is
/// replaced by `r`, otherwise `r` is appended. Also tells whether anything
/// changed.
pub open spec fn upsert_window(rs: Seq<(Seq<char>, i64, i64)>, r: (Seq<char>, i64, i64)) -> (Seq<
    (Seq<char>, i64, i64),
>, bool) {
    match same_window_index(rs, r, 0) {
        Some(k) => if rs[k] == r {
            (rs, false)
        } else {
            (rs.update(k, r), true)
        },
        None => (rs.push(r), true),
    }
}

fn clone_range(r: &AdTimeRange) -> (c: AdTimeRange)
    ensures
        c@ == r@,
{
    AdTimeRange { id: r.id.clone(), start_ms: r.start_ms, end_ms: r.end_ms }
}

pub fn upsert_ad_range(ranges: &mut Vec<AdTimeRange>, range: &AdTimeRange) -> (changed: bool)
    ensures
        (ranges_view(final(ranges)@), changed) == upsert_window(ranges_view(old(ranges)@), range@),
{
    let ghost rv = ranges_view(ranges@);
    let id = chars_of(range.id.as_str());
    let mut i: usize = 0;
    while i < ranges.len()
        invariant
            i <= ranges.len(),
            *ranges == *old(ranges),
            rv == ranges_view(ranges@),
            id@ == range.id@,
            same_window_index(rv, range@, 0) == same_window_index(rv, range@, i as int),
        decreases ranges.len() - i,
    {
        let eid = chars_of(ranges[i].id.as_str());
        if ranges[i].start_ms == range.start_ms && chars_eq(&eid, &id) {
            assert(rv[i as int] == ranges@[i as int]@);
            let same = ranges[i].end_ms == range.end_ms;
            if same {
                assert(rv[i as int] == range@);
                return false;
            }
            ranges.set(i, clone_range(range));
            assert(ranges_view(ranges@) =~= rv.update(i as int, range@));
            return true;
        }
        assert(rv[i as int] == ranges@[i as int]@);
        i += 1;
    }
    ranges.push(clone_range(range));
    assert(ranges_view(ranges@) =~= rv.push(range@));
    true
}

pub open spec fn same_window(a: (Seq<char>, i64, i64), b: (Seq<char>, i64, i64)) -> bool {
    a.0 == b.0 && a.1 == b.1
}

proof fn lemma_same_window_index(rs: Seq<(Seq<char>, i64, i64)>, r: (Seq<char>, i64, i64), i: int)
    requires
        0 <= i,
    ensures
        same_window_index(rs, r, i) matches Some(k) ==> i <= k < rs.len() && same_window(rs[k], r)
            && forall|j: int| i <= j < k ==> !same_window(#[trigger] rs[j], r),
        same_window_index(rs, r, i) is None ==> forall|j: int|
            i <= j < rs.len() ==> !same_window(#[trigger] rs[j], r),
    decreases rs.len() - i,
{
    if i < rs.len() && !(rs[i].0 == r.0 && rs[i].1 == r.1) {
        lemma_same_window_index(rs, r, i + 1);
    }
}

proof fn lemma_same_window_index_at(
    rs: Seq<(Seq<char>, i64, i64)>,
    r: (Seq<char>, i64, i64),
    i: int,
    k: int,
)
    requires
        0 <= i <= k < rs.len(),
        same_window(rs[k], r),
        forall|j: int| i <= j < k ==> !same_window(#[trigger] rs[j], r),
    ensures
        same_window_index(rs, r, i) == Some(k),
    decreases k - i,
{
    if i < k {
        assert(!same_window(rs[i], r));
        lemma_same_window_index_at(rs, r, i + 1, k);
    }
}

/// Recording the same ad window twice changes nothing the second time.
pub proof fn upsert_window_idempotent(rs: Seq<(Seq<char>, i64, i64)>, r: (Seq<char>, i64, i64))
    ensures
        upsert_window(upsert_window(rs, r).0, r) == (upsert_window(rs, r).0, false),
{
    lemma_same_window_index(rs, r, 0);
    let rs2 = upsert_window(rs, r).0;
    match same_window_index(rs, r, 0) {
        Some(k) => {
            if rs[k] != r {
                assert forall|j: int| 0 <= j < k implies !same_window(#[trigger] rs2[j], r) by {
                    assert(rs2[j] == rs[j]);
                }
                lemma_same_window_index_at(rs2, r, 0, k);
            }
        },
        None => {
            assert forall|j: int| 0 <= j < rs.len() implies !same_window(#[trigger] rs2[j], r) by {
                assert(rs2[j] == rs[j]);
            }
            lemma_same_window_index_at(rs2, r, 0, rs.len() as int);
        },
    }
}


// ---------------------------------------------------------------------------
// Playlist rounds
// ---------------------------------------------------------------------------

/// The milliseconds after the last stored segment from which a recording
/// whose playlist brings nothing new counts as stalled.
pub const UPDATE_TIMEOUT_MS: i64 = 20_000;

/// The index of the first segment of a playlist (of `count` segments,
/// starting at media sequence `playlist_sequence`) that comes after
/// `last_sequence`, or `count` when none does.
pub open spec fn first_new_index(playlist_sequence: u64, count: nat, last_sequence: u64) -> nat {
    if last_sequence < playlist_sequence {
        0
    } else if last_sequence - playlist_sequence + 1 >= count {
        count
    } else {
        (last_sequence - playlist_sequence + 1) as nat
    }
}

/// The segments of a playlist that are new, in order: each one's index and
/// media sequence, for those whose sequence comes after `last_sequence`.
pub open spec fn new_segments(playlist_sequence: u64, count: nat, last_sequence: u64) -> Seq<(usize, u64)> {
    let start = first_new_index(playlist_sequence, count, last_sequence);
    Seq::new(
        (count - start) as nat,
        |k: int| ((start + k) as usize, (playlist_sequence + start + k) as u64),
    )
}

/// The segments of a playlist to fetch in this round: see `new_segments`.
/// A segment's media sequence is the playlist's plus its index, which must
/// fit in 64 bits.
pub fn new_segments_of(playlist_sequence: u64, count: usize, last_sequence: u64) -> (r: Vec<(usize, u64)>)
    requires
        playlist_sequence + count <= u64::MAX,
    ensures
        r@ == new_segments(playlist_sequence, count as nat, last_sequence),
{
    let mut r: Vec<(usize, u64)> = Vec::new();
    let mut i: usize = 0;
    while i < count
        invariant
            i <= count,
            playlist_sequence + count <= u64::MAX,
            r@ == new_segments(playlist_sequence, i as nat, last_sequence),
        decreases count - i,
    {
        let sequence = playlist_sequence + i as u64;
        let ghost before = new_segments(playlist_sequence, i as nat, last_sequence);
        let ghost after = new_segments(playlist_sequence, (i + 1) as nat, last_sequence);
        if sequence > last_sequence {
            r.push((i, sequence));
            assert(r@ =~= after);
        } else {
            assert(after =~= before);
        }
        i = i + 1;
    }
    r
}

/// What becomes of a downloaded segment.
#[derive(Debug, PartialEq, Eq, Structural)]
pub enum SegmentStore {
    /// A damaged segment with no segment before it: dropped.
    Drop,
    /// A damaged segment (such as a Bilibili TS segment that lacks its
    /// SPS/PPS): its data goes behind the last stored segment's.
    AppendToLast,
    /// Stored as a new segment; `first_shape` when it is the first whose
    /// resolution and codec are known, which later segments must keep.
    Add { first_shape: bool },
}

/// The store decision for a downloaded segment: `corrupted` from its
/// metadata, `playlist_empty` for the recording's playlist, and `same_shape`
/// whether its resolution and codec match the first segment's (`None` when
/// no segment's shape is known yet). A segment of another shape ends the
/// recording, since the segments would not play as one.
pub fn store_decision(corrupted: bool, playlist_empty: bool, same_shape: Option<bool>) -> (r: Result<
    SegmentStore,
    RecorderError,
>)
    ensures
        corrupted ==> r == (if playlist_empty {
            Ok::<SegmentStore, RecorderError>(SegmentStore::Drop)
        } else {
            Ok(SegmentStore::AppendToLast)
        }),
        !corrupted && same_shape is None ==> r == Ok::<SegmentStore, RecorderError>(
            SegmentStore::Add { first_shape: true },
        ),
        !corrupted && same_shape == Some(true) ==> r == Ok::<SegmentStore, RecorderError>(
            SegmentStore::Add { first_shape: false },
        ),
        !corrupted && same_shape == Some(false) ==> (r matches Err(RecorderError::ResolutionChanged {
            err,
        }) && err@ == "Resolution changed"@),
{
    if corrupted {
        if playlist_empty {
            Ok(SegmentStore::Drop)
        } else {
            Ok(SegmentStore::AppendToLast)
        }
    } else {
        match same_shape {
            None => Ok(SegmentStore::Add { first_shape: true }),
            Some(true) => Ok(SegmentStore::Add { first_shape: false }),
            Some(false) => Err(RecorderError::ResolutionChanged { err: "Resolution changed".to_string() }),
        }
    }
}

/// How a round of playlist reading ends, given the time of the last stored
/// segment (`updated_at_ms`), the current time in milliseconds and seconds,
/// whether the round stored anything, and the stream: a recording that stored
/// nothing for `UPDATE_TIMEOUT_MS` has stalled; otherwise a `RecordUpdate`
/// event is owed when something was stored (the first item), and a stream
/// that is about to expire ends the recording so that a fresh one resumes it.
pub fn round_end(updated_at_ms: i64, now_ms: i64, updated: bool, stream: &HlsStream, now_secs: i64) -> (r: (
    bool,
    Result<(), RecorderError>,
))
    requires
        updated_at_ms + UPDATE_TIMEOUT_MS <= i64::MAX,
    ensures
        updated_at_ms + UPDATE_TIMEOUT_MS < now_ms ==> !r.0 && r.1 matches Err(RecorderError::UpdateTimeout),
        updated_at_ms + UPDATE_TIMEOUT_MS >= now_ms ==> {
            &&& r.0 == updated
            &&& (stream.expire > 0 && stream.expire < now_secs + crate::media::SAFE_EXPIRE) ==> (r.1 matches Err(
                RecorderError::StreamExpired { expire },
            ) && expire == stream.expire)
            &&& !(stream.expire > 0 && stream.expire < now_secs + crate::media::SAFE_EXPIRE) ==> r.1 is Ok
        },
{
    if updated_at_ms + UPDATE_TIMEOUT_MS < now_ms {
        return (false, Err(RecorderError::UpdateTimeout));
    }
    if stream.is_expired_at(now_secs) {
        (updated, Err(RecorderError::StreamExpired { expire: stream.expire }))
    } else {
        (updated, Ok(()))
    }
}


/// A round fetches exactly the segments not stored before: each listed
/// segment lies in the playlist, carries the playlist's sequence plus its
/// index and comes after `last_sequence`; every segment of the playlist that
/// comes after `last_sequence` is listed.
pub proof fn new_segments_are_the_unseen_ones(playlist_sequence: u64, count: nat, last_sequence: u64)
    requires
        playlist_sequence + count <= u64::MAX,
        count <= usize::MAX,
    ensures
        forall|k: int|
            0 <= k < new_segments(playlist_sequence, count, last_sequence).len() ==> {
                let (i, sequence) = #[trigger] new_segments(playlist_sequence, count, last_sequence)[k];
                &&& i < count
                &&& sequence == playlist_sequence + i
                &&& sequence > last_sequence
            },
        forall|i: nat|
            i < count && playlist_sequence + i > last_sequence ==> #[trigger] new_segments(
                playlist_sequence,
                count,
                last_sequence,
            ).contains((i as usize, (playlist_sequence + i) as u64)),
{
    let n = new_segments(playlist_sequence, count, last_sequence);
    let start = first_new_index(playlist_sequence, count, last_sequence);
    assert forall|i: nat| i < count && playlist_sequence + i > last_sequence implies #[trigger] n.contains(
        (i as usize, (playlist_sequence + i) as u64),
    ) by {
        assert(i >= start);
        assert(n[i - start] == (i as usize, (playlist_sequence + i) as u64));
    }
}


// ---------------------------------------------------------------------------
// The stored sequence
// ---------------------------------------------------------------------------

/// What a recording's `.sequence` file says: the last stored media sequence
/// (0 when the file holds no number), and whether the file is blank, in which
/// case it is rewritten as `0`.
pub open spec fn stored_sequence(text: Seq<char>) -> (u64, bool) {
    let t = trim(text);
    (
        match parse_u64(t) {
            Some(n) => n,
            None => 0,
        },
        t.len() == 0,
    )
}

/// Reads the text of a `.sequence` file: see `stored_sequence`.
pub fn read_stored_sequence(text: &str) -> (r: (u64, bool))
    ensures
        r == stored_sequence(text@),
{
    let t = trim_str(text);
    let n = match parse_u64_exec(&t) {
        Some(n) => n,
        None => 0,
    };
    (n, t.len() == 0)
}

/// The text written to the `.sequence` file for `sequence`: its decimal form.
pub fn sequence_text(sequence: u64) -> (r: String)
    ensures
        r@ == decimal(sequence as nat),
{
    let mut digits: Vec<char> = Vec::new();
    push_decimal(&mut digits, sequence);
    string_of(&digits)
}

/// Digits are kept whole by trimming.
proof fn trim_keeps_digits(s: Seq<char>)
    requires
        s.len() > 0,
        all_digits(s),
    ensures
        trim(s) == s,
{
    assert(!crate::text::is_white_space(s[0]));
    assert(trim_start(s) == s);
    assert(!crate::text::is_white_space(s.last()));
    assert(trim_end(s) == s);
}

/// A stored sequence reads back as written: the file written for `sequence`
/// gives `sequence` again and is not taken for blank.
pub proof fn stored_sequence_reads_back(sequence: u64)
    ensures
        stored_sequence(decimal(sequence as nat)) == (sequence, false),
{
    decimal_digits_value(sequence as nat);
    trim_keeps_digits(decimal(sequence as nat));
    decimal_parses_back(sequence);
}

} // verus!
