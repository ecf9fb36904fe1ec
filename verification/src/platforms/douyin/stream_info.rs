//! Douyin pull URLs: the stream description and the list of alternatives.
use vstd::prelude::*;

use crate::errors::RecorderError;
use crate::json::{str_member, Json};
use crate::outside::{json_parsed, parse_json};
use crate::media::stream_info::{CdnNode, Codec, Format, PlatformType, Quality, StreamVariant};
use crate::text::{append_str, chars_of, eq_str, string_of};

verus! {

/// A pull URL found in Douyin `stream_data`.
#[derive(Debug, Clone)]
pub struct AvailableStream {
    pub quality: String,
    pub variant: String,
    pub format: &'static str,
    pub url: String,
}

/// `"{quality}/{variant} {format}"`.
pub open spec fn stream_label(quality: Seq<char>, variant: Seq<char>, format: Seq<char>) -> Seq<char> {
    quality + seq!['/'] + variant + seq![' '] + format
}

impl AvailableStream {
    /// The stream's label, `"{quality}/{variant} {format}"`.
    pub fn label(&self) -> (r: String)
        ensures
            r@ == stream_label(self.quality@, self.variant@, self.format@),
    {
        let mut v = chars_of(self.quality.as_str());
        v.push('/');
        append_str(&mut v, self.variant.as_str());
        v.push(' ');
        append_str(&mut v, self.format);
        string_of(&v)
    }
}

/// A stream as plain values: quality, variant, format and URL.
pub open spec fn stream_view(s: AvailableStream) -> (Seq<char>, Seq<char>, Seq<char>, Seq<char>) {
    (s.quality@, s.variant@, s.format@, s.url@)
}

pub open spec fn streams_view(v: Seq<AvailableStream>) -> Seq<(Seq<char>, Seq<char>, Seq<char>, Seq<char>)> {
    v.map_values(|s: AvailableStream| stream_view(s))
}

/// Qualities from best to worst.
pub open spec fn quality_order() -> Seq<Seq<char>> {
    seq!["origin"@, "uhd"@, "hd"@, "sd"@, "ld"@, "md"@, "ao"@]
}

/// Lines from preferred to fallback.
pub open spec fn variant_order() -> Seq<Seq<char>> {
    seq!["main"@, "backup"@]
}

/// Formats from preferred to fallback.
pub open spec fn format_order() -> Seq<Seq<char>> {
    seq!["hls"@, "flv"@]
}

fn quality_order_exec() -> (r: Vec<&'static str>)
    ensures
        r@.map_values(|s: &str| s@) == quality_order(),
{
    let r = vec!["origin", "uhd", "hd", "sd", "ld", "md", "ao"];
    assert(r@.map_values(|s: &str| s@) =~= quality_order());
    r
}

fn variant_order_exec() -> (r: Vec<&'static str>)
    ensures
        r@.map_values(|s: &str| s@) == variant_order(),
{
    let r = vec!["main", "backup"];
    assert(r@.map_values(|s: &str| s@) =~= variant_order());
    r
}

fn format_order_exec() -> (r: Vec<&'static str>)
    ensures
        r@.map_values(|s: &str| s@) == format_order(),
{
    let r = vec!["hls", "flv"];
    assert(r@.map_values(|s: &str| s@) =~= format_order());
    r
}

/// The position of `key` in `order`, or the length of `order` when it is
/// not there.
pub open spec fn rank_of(order: Seq<Seq<char>>, key: Seq<char>) -> nat
    decreases order.len(),
{
    if order.len() == 0 {
        0
    } else if order[0] == key {
        0
    } else {
        1 + rank_of(order.drop_first(), key)
    }
}

/// The position of `key` in `order`, or the length of `order`.
pub fn rank(order: &[&str], key: &str) -> (r: usize)
    ensures
        r == rank_of(order@.map_values(|s: &str| s@), key@),
{
    let ghost ov = order@.map_values(|s: &str| s@);
    let k = chars_of(key);
    let mut i: usize = 0;
    assert(ov.skip(0) =~= ov);
    while i < order.len()
        invariant
            i <= order.len(),
            ov == order@.map_values(|s: &str| s@),
            k@ == key@,
            rank_of(ov, key@) == i + rank_of(ov.skip(i as int), key@),
        decreases order.len() - i,
    {
        assert(ov.skip(i as int)[0] == order@[i as int]@);
        assert(ov.skip(i as int).drop_first() =~= ov.skip(i + 1));
        if eq_str(&k, order[i]) {
            return i;
        }
        i += 1;
    }
    assert(ov.skip(i as int) =~= Seq::<Seq<char>>::empty());
    i
}

/// Lexicographic order of character sequences by code point (the order of
/// `str::cmp`, as UTF-8 preserves code point order).
pub open spec fn chars_lt(a: Seq<char>, b: Seq<char>) -> bool
    decreases a.len(),
{
    if a.len() == 0 {
        b.len() > 0
    } else if b.len() == 0 {
        false
    } else if a[0] != b[0] {
        (a[0] as u32) < (b[0] as u32)
    } else {
        chars_lt(a.drop_first(), b.drop_first())
    }
}

pub fn chars_less(a: &[char], b: &[char]) -> (r: bool)
    ensures
        r == chars_lt(a@, b@),
{
    let mut i: usize = 0;
    assert(a@.skip(0) =~= a@);
    assert(b@.skip(0) =~= b@);
    while i < a.len() && i < b.len()
        invariant
            i <= a.len(),
            i <= b.len(),
            chars_lt(a@, b@) == chars_lt(a@.skip(i as int), b@.skip(i as int)),
        decreases a.len() - i,
    {
        assert(a@.skip(i as int)[0] == a@[i as int]);
        assert(b@.skip(i as int)[0] == b@[i as int]);
        if a[i] != b[i] {
            return (a[i] as u32) < (b[i] as u32);
        }
        assert(a@.skip(i as int).drop_first() =~= a@.skip(i + 1));
        assert(b@.skip(i as int).drop_first() =~= b@.skip(i + 1));
        i += 1;
    }
    if i == a.len() {
        assert(a@.skip(i as int) =~= Seq::<char>::empty());
        i < b.len()
    } else {
        assert(b@.skip(i as int) =~= Seq::<char>::empty());
        false
    }
}

/// The order in which streams are listed: by quality rank, quality name,
/// line rank, line name, then format rank.
pub open spec fn stream_lt(
    x: (Seq<char>, Seq<char>, Seq<char>, Seq<char>),
    y: (Seq<char>, Seq<char>, Seq<char>, Seq<char>),
) -> bool {
    let qx = rank_of(quality_order(), x.0);
    let qy = rank_of(quality_order(), y.0);
    let vx = rank_of(variant_order(), x.1);
    let vy = rank_of(variant_order(), y.1);
    let fx = rank_of(format_order(), x.2);
    let fy = rank_of(format_order(), y.2);
    qx < qy || (qx == qy && (chars_lt(x.0, y.0) || (x.0 == y.0 && (vx < vy || (vx == vy && (
    chars_lt(x.1, y.1) || (x.1 == y.1 && fx < fy)))))))
}

fn stream_less(x: &AvailableStream, y: &AvailableStream) -> (r: bool)
    ensures
        r == stream_lt(stream_view(*x), stream_view(*y)),
{
    let qo = quality_order_exec();
    let vo = variant_order_exec();
    let fo = format_order_exec();
    let qx = rank(&qo, x.quality.as_str());
    let qy = rank(&qo, y.quality.as_str());
    if qx != qy {
        return qx < qy;
    }
    let xq = chars_of(x.quality.as_str());
    let yq = chars_of(y.quality.as_str());
    if chars_less(&xq, &yq) {
        return true;
    }
    if !crate::text::chars_eq(&xq, &yq) {
        return false;
    }
    let vx = rank(&vo, x.variant.as_str());
    let vy = rank(&vo, y.variant.as_str());
    if vx != vy {
        return vx < vy;
    }
    let xv = chars_of(x.variant.as_str());
    let yv = chars_of(y.variant.as_str());
    if chars_less(&xv, &yv) {
        return true;
    }
    if !crate::text::chars_eq(&xv, &yv) {
        return false;
    }
    rank(&fo, x.format) < rank(&fo, y.format)
}

/// `x` placed into the listed streams `s`: after every stream that does not
/// come after it (stable insertion).
pub open spec fn insert_stream(
    s: Seq<(Seq<char>, Seq<char>, Seq<char>, Seq<char>)>,
    x: (Seq<char>, Seq<char>, Seq<char>, Seq<char>),
) -> Seq<(Seq<char>, Seq<char>, Seq<char>, Seq<char>)>
    decreases s.len(),
{
    if s.len() == 0 {
        seq![x]
    } else if stream_lt(x, s.last()) {
        insert_stream(s.drop_last(), x).push(s.last())
    } else {
        s.push(x)
    }
}

/// The streams in listing order, streams that compare equal keeping their
/// order (a stable sort by `stream_lt`).
pub open spec fn sort_streams(s: Seq<(Seq<char>, Seq<char>, Seq<char>, Seq<char>)>) -> Seq<
    (Seq<char>, Seq<char>, Seq<char>, Seq<char>),
>
    decreases s.len(),
{
    if s.len() == 0 {
        s
    } else {
        insert_stream(sort_streams(s.drop_last()), s.last())
    }
}

proof fn lemma_insert_stream_at(
    s: Seq<(Seq<char>, Seq<char>, Seq<char>, Seq<char>)>,
    x: (Seq<char>, Seq<char>, Seq<char>, Seq<char>),
    j: int,
)
    requires
        0 <= j <= s.len(),
        forall|k: int| j <= k < s.len() ==> stream_lt(x, #[trigger] s[k]),
        j == 0 || !stream_lt(x, s[j - 1]),
    ensures
        insert_stream(s, x) == s.insert(j, x),
    decreases s.len(),
{
    if s.len() == j {
        if j == 0 {
            assert(s.insert(j, x) =~= seq![x]);
        } else {
            assert(s.insert(j, x) =~= s.push(x));
        }
    } else {
        assert(stream_lt(x, s[s.len() - 1]));
        let t = s.drop_last();
        assert forall|k: int| j <= k < t.len() implies stream_lt(x, #[trigger] t[k]) by {
            assert(t[k] == s[k]);
        }
        if j > 0 {
            assert(t[j - 1] == s[j - 1]);
        }
        lemma_insert_stream_at(t, x, j);
        assert(t.insert(j, x).push(s.last()) =~= s.insert(j, x));
    }
}

/// Places `x` into `out`, which is listed in order.
fn insert_into(out: &mut Vec<AvailableStream>, x: AvailableStream)
    ensures
        streams_view(final(out)@) == insert_stream(streams_view(old(out)@), stream_view(x)),
{
    let ghost sv = streams_view(out@);
    let mut j: usize = out.len();
    while j > 0 && stream_less(&x, &out[j - 1])
        invariant
            j <= out.len(),
            out@ == old(out)@,
            sv == streams_view(out@),
            forall|k: int| j <= k < out.len() ==> stream_lt(stream_view(x), #[trigger] sv[k]),
        decreases j,
    {
        j -= 1;
    }
    proof {
        if j > 0 {
            assert(sv[j - 1] == stream_view(out@[j - 1]));
        }
        lemma_insert_stream_at(sv, stream_view(x), j as int);
    }
    out.insert(j, x);
    assert(streams_view(out@) =~= sv.insert(j as int, stream_view(x)));
}

/// The streams of one line of a quality: its `hls` then its `flv` URL, each
/// when it is a non-empty string.
pub open spec fn format_streams(q: Seq<char>, v: Seq<char>, urls: Json) -> Seq<
    (Seq<char>, Seq<char>, Seq<char>, Seq<char>),
> {
    let h = match str_member(urls, "hls"@) {
        Some(u) => if u.len() > 0 {
            seq![(q, v, "hls"@, u)]
        } else {
            Seq::empty()
        },
        None => Seq::empty(),
    };
    let f = match str_member(urls, "flv"@) {
        Some(u) => if u.len() > 0 {
            seq![(q, v, "flv"@, u)]
        } else {
            Seq::empty()
        },
        None => Seq::empty(),
    };
    h + f
}

/// The streams of the lines of quality `q`, in member order.
pub open spec fn variant_streams(q: Seq<char>, lines: Seq<(String, Json)>) -> Seq<
    (Seq<char>, Seq<char>, Seq<char>, Seq<char>),
>
    decreases lines.len(),
{
    if lines.len() == 0 {
        Seq::empty()
    } else {
        variant_streams(q, lines.drop_last()) + format_streams(
            q,
            lines.last().0@,
            lines.last().1,
        )
    }
}

/// The streams of all qualities, in member order; a quality whose value is
/// not an object has none.
pub open spec fn quality_streams(qualities: Seq<(String, Json)>) -> Seq<
    (Seq<char>, Seq<char>, Seq<char>, Seq<char>),
>
    decreases qualities.len(),
{
    if qualities.len() == 0 {
        Seq::empty()
    } else {
        quality_streams(qualities.drop_last()) + match qualities.last().1 {
            Json::Object(lines) => variant_streams(qualities.last().0@, lines@),
            _ => Seq::empty(),
        }
    }
}

/// The qualities of a `stream_data` document: the members of its `data`
/// object, or of the document itself when `data` is not an object.
pub open spec fn stream_qualities(value: Json) -> Option<Seq<(String, Json)>> {
    match value.lookup("data"@) {
        Some(Json::Object(d)) => Some(d@),
        _ => match value {
            Json::Object(e) => Some(e@),
            _ => None,
        },
    }
}

/// The non-empty HLS and FLV pull URLs of a `stream_data` document, in
/// listing order (see `stream_lt`).
pub open spec fn available_streams(value: Json) -> Seq<(Seq<char>, Seq<char>, Seq<char>, Seq<char>)> {
    match stream_qualities(value) {
        Some(qs) => sort_streams(quality_streams(qs)),
        None => Seq::empty(),
    }
}

/// Adds the stream `(q, v, format, url)` when the URL is a non-empty string.
fn add_stream(
    out: &mut Vec<AvailableStream>,
    q: &String,
    v: &String,
    format: &'static str,
    url: Option<String>,
    Ghost(before): Ghost<Seq<(Seq<char>, Seq<char>, Seq<char>, Seq<char>)>>,
) -> (added: Ghost<Seq<(Seq<char>, Seq<char>, Seq<char>, Seq<char>)>>)
    requires
        streams_view(old(out)@) == sort_streams(before),
    ensures
        streams_view(final(out)@) == sort_streams(before + added@),
        added@ == (match crate::outside::opt_view(url) {
            Some(u) => if u.len() > 0 {
                seq![(q@, v@, format@, u)]
            } else {
                Seq::empty()
            },
            None => Seq::empty(),
        }),
{
    match url {
        Some(u) => {
            if !u.as_str().is_empty() {
                let x = AvailableStream { quality: q.clone(), variant: v.clone(), format, url: u };
                let ghost xv = stream_view(x);
                insert_into(out, x);
                assert((before + seq![xv]).drop_last() =~= before);
                assert((before + seq![xv]).last() == xv);
                let added: Ghost<Seq<(Seq<char>, Seq<char>, Seq<char>, Seq<char>)>> = Ghost(Seq::empty().push(xv));
                added
            } else {
                assert(before + Seq::<(Seq<char>, Seq<char>, Seq<char>, Seq<char>)>::empty() =~= before);
                let added: Ghost<Seq<(Seq<char>, Seq<char>, Seq<char>, Seq<char>)>> = Ghost(Seq::empty());
                added
            }
        },
        None => {
            assert(before + Seq::<(Seq<char>, Seq<char>, Seq<char>, Seq<char>)>::empty() =~= before);
            let added: Ghost<Seq<(Seq<char>, Seq<char>, Seq<char>, Seq<char>)>> = Ghost(Seq::empty());
            added
        },
    }
}

/// The pull URLs listed in a `stream_data` text: those of the document it
/// parses to, none when it is not JSON.
pub fn collect_available_streams(stream_data: &str) -> (r: Vec<AvailableStream>)
    ensures
        match json_parsed(stream_data@) {
            Ok(v) => streams_view(r@) == available_streams(v),
            Err(_) => r@.len() == 0,
        },
{
    match parse_json(stream_data) {
        Ok(v) => collect_available_streams_from_value(&v),
        Err(_) => Vec::new(),
    }
}

/// The pull URLs listed in a `stream_data` document (see `available_streams`).
pub fn collect_available_streams_from_value(value: &Json) -> (r: Vec<AvailableStream>)
    ensures
        streams_view(r@) == available_streams(*value),
{
    let data = match value.get("data") {
        Some(d) => match d {
            Json::Object(e) => Some(e),
            _ => None,
        },
        None => None,
    };
    let qualities = match data {
        Some(q) => q,
        None => match value {
            Json::Object(e) => e,
            _ => {
                return Vec::new();
            },
        },
    };
    let ghost qs = qualities@;
    assert(stream_qualities(*value) == Some(qs));
    let mut out: Vec<AvailableStream> = Vec::new();
    let mut i: usize = 0;
    assert(qs.take(0) =~= Seq::<(String, Json)>::empty());
    while i < qualities.len()
        invariant
            i <= qualities.len(),
            qs == qualities@,
            streams_view(out@) == sort_streams(quality_streams(qs.take(i as int))),
        decreases qualities.len() - i,
    {
        assert(qs.take(i + 1).drop_last() =~= qs.take(i as int));
        assert(qs.take(i + 1).last() == qs[i as int]);
        let q = &qualities[i].0;
        match &qualities[i].1 {
            Json::Object(lines) => {
                let ghost ls = lines@;
                let ghost base = quality_streams(qs.take(i as int));
                let mut j: usize = 0;
                assert(ls.take(0) =~= Seq::<(String, Json)>::empty());
                assert(base + Seq::<(Seq<char>, Seq<char>, Seq<char>, Seq<char>)>::empty() =~= base);
                while j < lines.len()
                    invariant
                        j <= lines.len(),
                        ls == lines@,
                        streams_view(out@) == sort_streams(base + variant_streams(q@, ls.take(j as int))),
                    decreases lines.len() - j,
                {
                    assert(ls.take(j + 1).drop_last() =~= ls.take(j as int));
                    assert(ls.take(j + 1).last() == ls[j as int]);
                    let v = &lines[j].0;
                    let urls = &lines[j].1;
                    let ghost pre = base + variant_streams(q@, ls.take(j as int));
                    let a = add_stream(&mut out, q, v, "hls", urls.get_str("hls"), Ghost(pre));
                    let b = add_stream(&mut out, q, v, "flv", urls.get_str("flv"), Ghost(pre + a@));
                    assert(pre + a@ + b@ =~= base + variant_streams(q@, ls.take(j + 1)));
                    j += 1;
                }
                assert(ls.take(lines.len() as int) =~= ls);
            },
            _ => {
                assert(quality_streams(qs.take(i as int)) + Seq::<(Seq<char>, Seq<char>, Seq<char>, Seq<char>)>::empty()
                    =~= quality_streams(qs.take(i as int)));
            },
        }
        i += 1;
    }
    assert(qs.take(qualities.len() as int) =~= qs);
    out
}

/// The `stream_data` document, reduced to the origin quality.
#[derive(Debug, Clone, Default)]
pub struct DouyinStream {
    pub data: Data,
}

#[derive(Debug, Clone, Default)]
pub struct Data {
    pub origin: Origin,
}

#[derive(Debug, Clone, Default)]
pub struct Ld {
    pub main: Main,
}

/// The pull URLs of one quality's main line.
#[derive(Debug, Clone, Default)]
pub struct Main {
    pub flv: String,
    pub hls: String,
}

#[derive(Debug, Clone, Default)]
pub struct Md {
    pub main: Main,
}

#[derive(Debug, Clone, Default)]
pub struct Origin {
    pub main: Main,
}

#[derive(Debug, Clone, Default)]
pub struct Sd {
    pub main: Main,
}

#[derive(Debug, Clone, Default)]
pub struct Hd {
    pub main: Main,
}

#[derive(Debug, Clone, Default)]
pub struct Ao {
    pub main: Main,
}

#[derive(Debug, Clone, Default)]
pub struct Uhd {
    pub main: Main,
}

impl DouyinStream {
    /// The origin quality's HLS URL, as an AVC HLS variant.
    pub fn primary_variant(&self) -> (r: Result<StreamVariant, RecorderError>)
        ensures
            r matches Ok(v) && v.url@ == self.data.origin.main.hls@ && v.format == Format::HLS
                && v.codec == Codec::AVC && v.quality == Quality::Origin && v.bitrate is None,
    {
        Ok(
            StreamVariant {
                url: self.data.origin.main.hls.clone(),
                format: Format::HLS,
                codec: Codec::AVC,
                quality: Quality::Origin,
                bitrate: None,
            },
        )
    }

    /// The primary variant alone.
    pub fn all_variants(&self) -> (r: Vec<StreamVariant>)
        ensures
            r.len() == 1,
            r@[0].url@ == self.data.origin.main.hls@,
            r@[0].format == Format::HLS,
            r@[0].codec == Codec::AVC,
            r@[0].quality == Quality::Origin,
            r@[0].bitrate is None,
    {
        match self.primary_variant() {
            Ok(v) => vec![v],
            Err(_) => Vec::new(),
        }
    }

    /// Douyin streams do not expire.
    pub fn expires_at(&self) -> (r: Option<i64>)
        ensures
            r is None,
    {
        None
    }

    /// Douyin streams come from a single CDN.
    pub fn cdn_nodes(&self) -> (r: Vec<CdnNode>)
        ensures
            r.len() == 0,
    {
        Vec::new()
    }

    pub fn platform(&self) -> (r: PlatformType)
        ensures
            r == PlatformType::Douyin,
    {
        PlatformType::Douyin
    }
}


/// Listed streams come by quality rank: no stream of a better quality (an
/// earlier one in `quality_order()`) comes after one of a worse quality.
pub open spec fn by_quality_rank(s: Seq<(Seq<char>, Seq<char>, Seq<char>, Seq<char>)>) -> bool {
    forall|i: int, j: int|
        0 <= i < j < s.len() ==> rank_of(quality_order(), #[trigger] s[i].0) <= rank_of(quality_order(), #[trigger] s[j].0)
}

proof fn insert_stream_bounded(
    s: Seq<(Seq<char>, Seq<char>, Seq<char>, Seq<char>)>,
    x: (Seq<char>, Seq<char>, Seq<char>, Seq<char>),
    m: nat,
)
    requires
        forall|i: int| 0 <= i < s.len() ==> rank_of(quality_order(), #[trigger] s[i].0) <= m,
        rank_of(quality_order(), x.0) <= m,
    ensures
        insert_stream(s, x).len() == s.len() + 1,
        forall|i: int|
            0 <= i < insert_stream(s, x).len() ==> rank_of(quality_order(), #[trigger] insert_stream(s, x)[i].0) <= m,
    decreases s.len(),
{
    if s.len() > 0 && stream_lt(x, s.last()) {
        let t = s.drop_last();
        assert forall|i: int| 0 <= i < t.len() implies rank_of(quality_order(), #[trigger] t[i].0) <= m by {
            assert(t[i] == s[i]);
        }
        insert_stream_bounded(t, x, m);
        let r = insert_stream(t, x);
        assert forall|i: int| 0 <= i < r.push(s.last()).len() implies rank_of(
            quality_order(),
            #[trigger] r.push(s.last())[i].0,
        ) <= m by {
            if i < r.len() {
                assert(r.push(s.last())[i] == r[i]);
            } else {
                assert(r.push(s.last())[i] == s[s.len() - 1]);
            }
        }
    } else if s.len() > 0 {
        assert forall|i: int| 0 <= i < s.push(x).len() implies rank_of(quality_order(), #[trigger] s.push(x)[i].0)
            <= m by {
            if i < s.len() {
                assert(s.push(x)[i] == s[i]);
            }
        }
    }
}

proof fn insert_stream_by_rank(
    s: Seq<(Seq<char>, Seq<char>, Seq<char>, Seq<char>)>,
    x: (Seq<char>, Seq<char>, Seq<char>, Seq<char>),
)
    requires
        by_quality_rank(s),
    ensures
        by_quality_rank(insert_stream(s, x)),
    decreases s.len(),
{
    if s.len() == 0 {
    } else if stream_lt(x, s.last()) {
        let t = s.drop_last();
        let l = s.last();
        let m = rank_of(quality_order(), l.0);
        assert forall|i: int, j: int| 0 <= i < j < t.len() implies rank_of(quality_order(), #[trigger] t[i].0)
            <= rank_of(quality_order(), #[trigger] t[j].0) by {
            assert(t[i] == s[i] && t[j] == s[j]);
        }
        insert_stream_by_rank(t, x);
        assert forall|i: int| 0 <= i < t.len() implies rank_of(quality_order(), #[trigger] t[i].0) <= m by {
            assert(t[i] == s[i]);
            assert(s[s.len() - 1] == l);
        }
        insert_stream_bounded(t, x, m);
        let r = insert_stream(t, x);
        let w = r.push(l);
        assert forall|i: int, j: int| 0 <= i < j < w.len() implies rank_of(quality_order(), #[trigger] w[i].0)
            <= rank_of(quality_order(), #[trigger] w[j].0) by {
            assert(w[i] == r[i]);
            if j < r.len() {
                assert(w[j] == r[j]);
            } else {
                assert(w[j] == l);
            }
        }
    } else {
        let l = s.last();
        let w = s.push(x);
        assert(rank_of(quality_order(), l.0) <= rank_of(quality_order(), x.0));
        assert forall|i: int, j: int| 0 <= i < j < w.len() implies rank_of(quality_order(), #[trigger] w[i].0)
            <= rank_of(quality_order(), #[trigger] w[j].0) by {
            assert(w[i] == s[i]);
            if j < s.len() {
                assert(w[j] == s[j]);
            } else {
                assert(w[j] == x);
                if i < s.len() - 1 {
                    assert(s[s.len() - 1] == l);
                }
            }
        }
    }
}

proof fn sort_streams_by_rank(s: Seq<(Seq<char>, Seq<char>, Seq<char>, Seq<char>)>)
    ensures
        by_quality_rank(sort_streams(s)),
    decreases s.len(),
{
    if s.len() > 0 {
        sort_streams_by_rank(s.drop_last());
        insert_stream_by_rank(sort_streams(s.drop_last()), s.last());
    }
}

/// The pull URLs of a `stream_data` document are listed best quality
/// first: a stream whose quality comes earlier in `quality_order()`
/// (origin, uhd, hd, sd, ld, md, ao) never comes after one whose quality
/// comes later.
pub proof fn listed_streams_go_best_quality_first(value: Json)
    ensures
        forall|i: int, j: int|
            0 <= i < j < available_streams(value).len() ==> rank_of(
                quality_order(),
                #[trigger] available_streams(value)[i].0,
            ) <= rank_of(quality_order(), #[trigger] available_streams(value)[j].0),
{
    match stream_qualities(value) {
        Some(qs) => sort_streams_by_rank(quality_streams(qs)),
        None => {},
    }
}

} // verus!
