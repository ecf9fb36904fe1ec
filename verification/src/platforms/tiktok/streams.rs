//! TikTok: the pull streams a live room offers, and the order in which
//! they are tried.
use vstd::prelude::*;

use crate::errors::RecorderError;
use crate::json::{i64_member, str_member, Json};
use crate::outside::{json_parsed, opt_view, parse_json};
use crate::platforms::tiktok::api::{append_codec, extract_m3u8_from_html, page_m3u8_url, with_codec, StreamInfo};
use crate::platforms::tiktok::state::{find_m3u8_in_value, found_m3u8};
use crate::sorting::{insert_by, lemma_insert_by_at, ordered_by, sort_by, sort_by_orders, strict_weak_order};
use crate::text::{chars_of, find_char, find_char_exec, parse_i64, parse_i64_exec, slice_chars};
use vstd::string::StringExecFns;

verus! {

/// One quality level of a live room: its pull URLs and what its SDK
/// parameters say of its bitrate and size.
#[derive(Debug, Clone)]
pub struct StreamCandidate {
    pub level: String,
    pub hls_url: Option<String>,
    pub flv_url: Option<String>,
    pub bitrate: i64,
    pub width: i64,
    pub height: i64,
}

/// A candidate as plain values: level, HLS URL, FLV URL, bitrate, width,
/// height.
pub type CandidateView = (Seq<char>, Option<Seq<char>>, Option<Seq<char>>, i64, i64, i64);

pub open spec fn candidate_view(c: StreamCandidate) -> CandidateView {
    (c.level@, opt_view(c.hls_url), opt_view(c.flv_url), c.bitrate, c.width, c.height)
}

pub open spec fn candidates_view(s: Seq<StreamCandidate>) -> Seq<CandidateView> {
    s.map_values(|c: StreamCandidate| candidate_view(c))
}

/// The quality levels of the stream data: the members of its `data`
/// object, in order (none when it has no such object).
pub open spec fn data_entries(stream_data: Json) -> Seq<(String, Json)> {
    match stream_data.lookup("data"@) {
        Some(Json::Object(m)) => m@,
        _ => Seq::empty(),
    }
}

/// The text of a level's SDK parameters: the `sdk_params` string of its
/// `main` object, else an empty object.
pub open spec fn sdk_text(entry: Json) -> Seq<char> {
    match entry.lookup("main"@) {
        Some(main) => match main {
            Json::Object(_) => match str_member(main, "sdk_params"@) {
                Some(t) => t,
                None => "{}"@,
            },
            _ => "{}"@,
        },
        None => "{}"@,
    }
}

/// The bitrate the SDK parameters give: `vbitrate` as an integer, or as a
/// string holding one, else zero.
pub open spec fn sdk_bitrate(sdk: Json) -> i64 {
    match i64_member(sdk, "vbitrate"@) {
        Some(b) => b,
        None => match str_member(sdk, "vbitrate"@) {
            Some(t) => match parse_i64(t) {
                Some(b) => b,
                None => 0,
            },
            None => 0,
        },
    }
}

/// The size a resolution text gives: the integers before and after its
/// first `x`, else zero by zero.
pub open spec fn resolution_size(res: Seq<char>) -> (i64, i64) {
    match find_char(res, 'x') {
        Some(i) => match (parse_i64(res.take(i)), parse_i64(res.skip(i + 1))) {
            (Some(w), Some(h)) => (w, h),
            _ => (0, 0),
        },
        None => (0, 0),
    }
}

/// A string member, or the empty text.
pub open spec fn str_or_empty(v: Json, key: Seq<char>) -> Seq<char> {
    match str_member(v, key) {
        Some(t) => t,
        None => Seq::empty(),
    }
}

/// A string member of `main` with the codec named by the SDK parameters
/// added.
pub open spec fn codec_url(main: Json, key: Seq<char>, sdk: Json) -> Option<Seq<char>> {
    match str_member(main, key) {
        Some(u) => Some(with_codec(u, str_or_empty(sdk, "VCodec"@))),
        None => None,
    }
}

/// The candidate a quality level gives: none unless its `main` member is
/// an object with an `hls` or an `flv` URL.
pub open spec fn candidate_of(level: Seq<char>, entry: Json, sdk: Json) -> Option<CandidateView> {
    match entry.lookup("main"@) {
        Some(main) => match main {
            Json::Object(_) => {
                let hls = codec_url(main, "hls"@, sdk);
                let flv = codec_url(main, "flv"@, sdk);
                if hls is None && flv is None {
                    None
                } else {
                    let size = resolution_size(str_or_empty(sdk, "resolution"@));
                    Some((level, hls, flv, sdk_bitrate(sdk), size.0, size.1))
                }
            },
            _ => None,
        },
        None => None,
    }
}

/// The candidates of the first `n` levels, in order.
pub open spec fn candidates_of(entries: Seq<(String, Json)>, sdks: Seq<Json>, n: int) -> Seq<CandidateView>
    decreases n,
{
    if n <= 0 {
        Seq::empty()
    } else {
        let pre = candidates_of(entries, sdks, n - 1);
        match candidate_of(entries[n - 1].0@, entries[n - 1].1, sdks[n - 1]) {
            Some(c) => pre.push(c),
            None => pre,
        }
    }
}

/// Higher bitrates first, then wider, then taller.
pub open spec fn higher_candidate() -> spec_fn(CandidateView, CandidateView) -> bool {
    |a: CandidateView, b: CandidateView|
        b.3 < a.3 || (b.3 == a.3 && (b.4 < a.4 || (b.4 == a.4 && b.5 < a.5)))
}

/// The SDK parameter texts of the levels, one per level in order.
pub fn sdk_params_texts(stream_data: &Json) -> (r: Vec<String>)
    ensures
        r@.len() == data_entries(*stream_data).len(),
        forall|i: int| 0 <= i < r@.len() ==> (#[trigger] r@[i])@ == sdk_text(data_entries(*stream_data)[i].1),
{
    let mut r: Vec<String> = Vec::new();
    let empty: Vec<(String, Json)> = Vec::new();
    let entries: &Vec<(String, Json)> = match stream_data.get("data") {
        Some(d) => match d {
            Json::Object(m) => m,
            _ => &empty,
        },
        None => &empty,
    };
    assert(entries@ == data_entries(*stream_data));
    let mut i: usize = 0;
    while i < entries.len()
        invariant
            i <= entries.len(),
            entries@ == data_entries(*stream_data),
            r@.len() == i,
            forall|k: int| 0 <= k < i ==> (#[trigger] r@[k])@ == sdk_text(entries@[k].1),
        decreases entries.len() - i,
    {
        let t = match entries[i].1.get("main") {
            Some(main) => match main {
                Json::Object(_) => match main.get_str("sdk_params") {
                    Some(t) => t,
                    None => String::from_str("{}"),
                },
                _ => String::from_str("{}"),
            },
            None => String::from_str("{}"),
        };
        r.push(t);
        i += 1;
    }
    r
}

fn sdk_bitrate_exec(sdk: &Json) -> (r: i64)
    ensures
        r == sdk_bitrate(*sdk),
{
    match sdk.get_i64("vbitrate") {
        Some(b) => b,
        None => match sdk.get_str("vbitrate") {
            Some(t) => match parse_i64_exec(&chars_of(t.as_str())) {
                Some(b) => b,
                None => 0,
            },
            None => 0,
        },
    }
}

fn resolution_size_exec(res: &str) -> (r: (i64, i64))
    ensures
        r == resolution_size(res@),
{
    let v = chars_of(res);
    match find_char_exec(&v, 'x') {
        Some(i) => {
            let w = parse_i64_exec(&slice_chars(&v, 0, i));
            let h = parse_i64_exec(&slice_chars(&v, i + 1, v.len()));
            assert(v@.subrange(0, i as int) =~= v@.take(i as int));
            assert(v@.subrange(i + 1, v.len() as int) =~= v@.skip(i + 1));
            match (w, h) {
                (Some(w), Some(h)) => (w, h),
                _ => (0, 0),
            }
        },
        None => (0, 0),
    }
}

fn str_or_empty_exec(v: &Json, key: &str) -> (r: String)
    ensures
        r@ == str_or_empty(*v, key@),
{
    match v.get_str(key) {
        Some(t) => t,
        None => String::new(),
    }
}

fn codec_url_exec(main: &Json, key: &str, codec: &str) -> (r: Option<String>)
    ensures
        opt_view(r) == (match str_member(*main, key@) {
            Some(u) => Some(with_codec(u, codec@)),
            None => None,
        }),
{
    match main.get_str(key) {
        Some(u) => Some(append_codec(u.as_str(), codec)),
        None => None,
    }
}

fn candidate_exec(level: &String, entry: &Json, sdk: &Json) -> (r: Option<StreamCandidate>)
    ensures
        (match r {
            Some(c) => Some(candidate_view(c)),
            None => None,
        }) == candidate_of(level@, *entry, *sdk),
{
    match entry.get("main") {
        Some(main) => match main {
            Json::Object(_) => {
                let codec = str_or_empty_exec(sdk, "VCodec");
                let hls_url = codec_url_exec(main, "hls", codec.as_str());
                let flv_url = codec_url_exec(main, "flv", codec.as_str());
                if hls_url.is_none() && flv_url.is_none() {
                    return None;
                }
                let res = str_or_empty_exec(sdk, "resolution");
                let (width, height) = resolution_size_exec(res.as_str());
                Some(
                    StreamCandidate {
                        level: level.clone(),
                        hls_url,
                        flv_url,
                        bitrate: sdk_bitrate_exec(sdk),
                        width,
                        height,
                    },
                )
            },
            _ => None,
        },
        None => None,
    }
}

fn higher_exec(a: &StreamCandidate, b: &StreamCandidate) -> (r: bool)
    ensures
        r == (higher_candidate())(candidate_view(*a), candidate_view(*b)),
{
    b.bitrate < a.bitrate || (b.bitrate == a.bitrate && (b.width < a.width || (b.width == a.width
        && b.height < a.height)))
}

fn insert_candidate(out: &mut Vec<StreamCandidate>, x: StreamCandidate)
    ensures
        candidates_view(final(out)@) == insert_by(
            candidates_view(old(out)@),
            candidate_view(x),
            higher_candidate(),
        ),
{
    let ghost sv = candidates_view(out@);
    let mut j: usize = out.len();
    while j > 0 && higher_exec(&x, &out[j - 1])
        invariant
            j <= out.len(),
            out@ == old(out)@,
            sv == candidates_view(out@),
            forall|k: int| j <= k < out.len() ==> (higher_candidate())(candidate_view(x), #[trigger] sv[k]),
        decreases j,
    {
        j -= 1;
    }
    proof {
        if j > 0 {
            assert(sv[j - 1] == candidate_view(out@[j - 1]));
        }
        lemma_insert_by_at(sv, candidate_view(x), higher_candidate(), j as int);
    }
    out.insert(j, x);
    assert(candidates_view(out@) =~= sv.insert(j as int, candidate_view(x)));
}

/// The SDK parameters of the levels, one per level in order: each level's
/// parameter text (`sdk_text`) parsed as JSON, a null value where it does
/// not parse.
pub open spec fn parsed_sdk_params(stream_data: Json) -> Seq<Json> {
    Seq::new(
        data_entries(stream_data).len(),
        |i: int|
            match json_parsed(sdk_text(data_entries(stream_data)[i].1)) {
                Ok(v) => v,
                Err(_) => Json::Null,
            },
    )
}

fn parse_sdk_params(stream_data: &Json) -> (r: Vec<Json>)
    ensures
        r@ == parsed_sdk_params(*stream_data),
{
    let texts = sdk_params_texts(stream_data);
    let mut r: Vec<Json> = Vec::new();
    let mut i: usize = 0;
    while i < texts.len()
        invariant
            i <= texts.len(),
            texts@.len() == data_entries(*stream_data).len(),
            forall|k: int| 0 <= k < texts@.len() ==> (#[trigger] texts@[k])@ == sdk_text(data_entries(*stream_data)[k].1),
            r@.len() == i,
            forall|k: int| 0 <= k < i ==> #[trigger] r@[k] == parsed_sdk_params(*stream_data)[k],
        decreases texts.len() - i,
    {
        let v = match parse_json(texts[i].as_str()) {
            Ok(v) => v,
            Err(_) => Json::Null,
        };
        r.push(v);
        i += 1;
    }
    assert(r@ =~= parsed_sdk_params(*stream_data));
    r
}

/// The stream candidates of a live room's stream data, highest bitrate
/// (then width, then height) first, levels that compare equal keeping
/// their order; each level is read with its parsed SDK parameters (see
/// `parsed_sdk_params`).
pub fn extract_stream_candidates(stream_data: &Json) -> (r: Vec<StreamCandidate>)
    ensures
        candidates_view(r@) == sort_by(
            candidates_of(
                data_entries(*stream_data),
                parsed_sdk_params(*stream_data),
                data_entries(*stream_data).len() as int,
            ),
            higher_candidate(),
        ),
{
    let params = parse_sdk_params(stream_data);
    candidates_with_params(stream_data, &params)
}

fn candidates_with_params(stream_data: &Json, sdk_params: &Vec<Json>) -> (r: Vec<StreamCandidate>)
    requires
        sdk_params@.len() == data_entries(*stream_data).len(),
    ensures
        candidates_view(r@) == sort_by(
            candidates_of(data_entries(*stream_data), sdk_params@, data_entries(*stream_data).len() as int),
            higher_candidate(),
        ),
{
    let ghost entries_v = data_entries(*stream_data);
    let empty: Vec<(String, Json)> = Vec::new();
    let entries: &Vec<(String, Json)> = match stream_data.get("data") {
        Some(d) => match d {
            Json::Object(m) => m,
            _ => &empty,
        },
        None => &empty,
    };
    assert(entries@ == entries_v);
    let mut out: Vec<StreamCandidate> = Vec::new();
    let mut i: usize = 0;
    assert(candidates_view(out@) =~= sort_by(candidates_of(entries_v, sdk_params@, 0), higher_candidate()));
    while i < entries.len()
        invariant
            i <= entries.len(),
            entries@ == entries_v,
            sdk_params@.len() == entries_v.len(),
            candidates_view(out@) == sort_by(candidates_of(entries_v, sdk_params@, i as int), higher_candidate()),
        decreases entries.len() - i,
    {
        let ghost pre = candidates_of(entries_v, sdk_params@, i as int);
        match candidate_exec(&entries[i].0, &entries[i].1, &sdk_params[i]) {
            Some(c) => {
                let ghost cv = candidate_view(c);
                insert_candidate(&mut out, c);
                assert(candidates_of(entries_v, sdk_params@, i + 1) == pre.push(cv));
                assert(pre.push(cv).drop_last() =~= pre);
            },
            None => {
                assert(candidates_of(entries_v, sdk_params@, i + 1) == pre);
            },
        }
        i += 1;
    }
    out
}


/// A stream offer as plain values: level, HLS URL, FLV (RTMP) URL.
pub open spec fn info_view(s: StreamInfo) -> (Seq<char>, Option<Seq<char>>, Option<Seq<char>>) {
    (s.level@, opt_view(s.hls_url), opt_view(s.rtmp_url))
}

pub open spec fn attempts_view(s: Seq<(String, StreamInfo)>) -> Seq<
    (Seq<char>, (Seq<char>, Option<Seq<char>>, Option<Seq<char>>)),
> {
    s.map_values(|a: (String, StreamInfo)| (a.0@, info_view(a.1)))
}

/// The levels, best first, in the order they are tried.
pub open spec fn level_order() -> Seq<Seq<char>> {
    seq![
        "origin"@,
        "uhd"@,
        "uhd60"@,
        "ld"@,
        "hd60"@,
        "ao"@,
        "hd"@,
        "sd"@,
        "original"@,
    ]
}

/// What one candidate offers, in order: its HLS URL, offering the stream
/// with both of its URLs; then its FLV URL, offering that URL alone.
pub open spec fn candidate_attempts(c: CandidateView) -> Seq<
    (Seq<char>, (Seq<char>, Option<Seq<char>>, Option<Seq<char>>)),
> {
    (match c.1 {
        Some(h) => seq![(h, (c.0, c.1, c.2))],
        None => Seq::empty(),
    }) + (match c.2 {
        Some(f) => seq![(f, (c.0, None, Some(f)))],
        None => Seq::empty(),
    })
}

/// What the first `n` candidates of one level offer, in order.
pub open spec fn level_attempts(cs: Seq<CandidateView>, level: Seq<char>, n: int) -> Seq<
    (Seq<char>, (Seq<char>, Option<Seq<char>>, Option<Seq<char>>)),
>
    decreases n,
{
    if n <= 0 {
        Seq::empty()
    } else {
        level_attempts(cs, level, n - 1) + (if cs[n - 1].0 == level {
            candidate_attempts(cs[n - 1])
        } else {
            Seq::empty()
        })
    }
}

/// What the candidates offer, level by level for the first `n` levels.
pub open spec fn all_attempts(cs: Seq<CandidateView>, levels: Seq<Seq<char>>, n: int) -> Seq<
    (Seq<char>, (Seq<char>, Option<Seq<char>>, Option<Seq<char>>)),
>
    decreases n,
{
    if n <= 0 {
        Seq::empty()
    } else {
        all_attempts(cs, levels, n - 1) + level_attempts(cs, levels[n - 1], cs.len() as int)
    }
}

fn push_candidate_attempts(out: &mut Vec<(String, StreamInfo)>, c: &StreamCandidate)
    ensures
        attempts_view(final(out)@) == attempts_view(old(out)@) + candidate_attempts(candidate_view(*c)),
{
    let ghost cv = candidate_view(*c);
    if let Some(h) = &c.hls_url {
        let info = StreamInfo { level: c.level.clone(), hls_url: c.hls_url.clone(), rtmp_url: c.flv_url.clone() };
        out.push((h.clone(), info));
    }
    let ghost mid = out@;
    if let Some(f) = &c.flv_url {
        let info = StreamInfo { level: c.level.clone(), hls_url: None, rtmp_url: Some(f.clone()) };
        out.push((f.clone(), info));
    }
    assert(attempts_view(out@) =~= attempts_view(old(out)@) + candidate_attempts(cv));
}

/// The URLs to probe, in order, each with the stream it offers when it
/// answers: for each level of `level_order`, the candidates of that level
/// in their order (see `candidate_attempts`). The first that answers is
/// the stream to record.
pub fn stream_attempts(cands: &Vec<StreamCandidate>) -> (r: Vec<(String, StreamInfo)>)
    ensures
        attempts_view(r@) == all_attempts(candidates_view(cands@), level_order(), 9),
{
    let ghost cs = candidates_view(cands@);
    let levels: Vec<&'static str> = vec!["origin", "uhd", "uhd60", "ld", "hd60", "ao", "hd", "sd", "original"];
    assert(levels@.map_values(|s: &str| s@) =~= level_order());
    let mut out: Vec<(String, StreamInfo)> = Vec::new();
    let mut li: usize = 0;
    assert(attempts_view(out@) =~= all_attempts(cs, level_order(), 0));
    while li < levels.len()
        invariant
            li <= levels.len(),
            levels.len() == 9,
            levels@.map_values(|s: &str| s@) == level_order(),
            cs == candidates_view(cands@),
            attempts_view(out@) == all_attempts(cs, level_order(), li as int),
        decreases levels.len() - li,
    {
        let ghost before = attempts_view(out@);
        let level = levels[li];
        assert(level@ == level_order()[li as int]);
        let mut ci: usize = 0;
        assert(attempts_view(out@) =~= before + level_attempts(cs, level@, 0));
        while ci < cands.len()
            invariant
                ci <= cands.len(),
                cs == candidates_view(cands@),
                attempts_view(out@) == before + level_attempts(cs, level@, ci as int),
            decreases cands.len() - ci,
        {
            assert(cs[ci as int] == candidate_view(cands@[ci as int]));
            if crate::text::eq_str(&chars_of(cands[ci].level.as_str()), level) {
                push_candidate_attempts(&mut out, &cands[ci]);
            }
            assert(attempts_view(out@) =~= before + level_attempts(cs, level@, ci + 1));
            ci += 1;
        }
        li += 1;
    }
    out
}


/// The stream a room's pull URLs offer: the HLS URL only when it answered,
/// the RTMP URL as given; an error when neither remains.
pub fn pull_stream_info(hls_url: Option<String>, rtmp_url: Option<String>, hls_reachable: bool) -> (r: Result<
    StreamInfo,
    RecorderError,
>)
    ensures
        r is Err <==> !(hls_url is Some && hls_reachable) && rtmp_url is None,
        r matches Ok(info) ==> info.level@ == Seq::<char>::empty() && opt_view(info.hls_url) == (if hls_reachable {
            opt_view(hls_url)
        } else {
            None
        }) && opt_view(info.rtmp_url) == opt_view(rtmp_url),
        r matches Err(e) ==> e matches RecorderError::ApiError { error } && error@
            == "No available stream provided"@,
{
    let hls = if hls_reachable {
        hls_url
    } else {
        None
    };
    if hls.is_none() && rtmp_url.is_none() {
        return Err(RecorderError::ApiError { error: String::from_str("No available stream provided") });
    }
    Ok(StreamInfo { level: String::new(), hls_url: hls, rtmp_url })
}

/// The last resort for a room's stream: the first playlist URL held in the
/// page state, else the first written in the page (see `found_m3u8` and
/// `page_m3u8_url`), offered as an HLS stream alone.
pub fn fallback_stream(state: &Json, html: &str) -> (r: Result<StreamInfo, RecorderError>)
    ensures
        r is Ok <==> (found_m3u8(*state) is Some || page_m3u8_url(html@) is Some),
        r matches Ok(info) ==> info.level@ == Seq::<char>::empty() && opt_view(info.hls_url) == Some(
            match found_m3u8(*state) {
                Some(u) => u,
                None => page_m3u8_url(html@)->0,
            },
        ) && info.rtmp_url is None,
        r matches Err(e) ==> e matches RecorderError::ApiError { error } && error@
            == "Failed to extract stream URL from page data"@,
{
    let found = match find_m3u8_in_value(state) {
        Some(u) => Some(u),
        None => extract_m3u8_from_html(html),
    };
    match found {
        Some(u) => Ok(StreamInfo { level: String::new(), hls_url: Some(u), rtmp_url: None }),
        None => Err(
            RecorderError::ApiError { error: String::from_str("Failed to extract stream URL from page data") },
        ),
    }
}


proof fn higher_candidate_orders()
    ensures
        strict_weak_order(higher_candidate()),
{
    let h = higher_candidate();
    assert forall|a: CandidateView, b: CandidateView| #[trigger] h(a, b) implies !h(b, a) by {}
    assert forall|a: CandidateView, b: CandidateView, c: CandidateView|
        #![trigger h(a, b), h(b, c)]
        !h(a, b) && !h(b, c) implies !h(a, c) by {}
}

/// The candidates of a room come out best first: no candidate stands behind
/// one of lower bitrate, nor behind one of the same bitrate that is
/// narrower, nor behind one of the same bitrate and width that is shorter.
pub proof fn candidates_come_best_first(stream_data: Json, sdk_params: Seq<Json>)
    ensures
        ({
            let r = sort_by(
                candidates_of(data_entries(stream_data), sdk_params, data_entries(stream_data).len() as int),
                higher_candidate(),
            );
            &&& ordered_by(r, higher_candidate())
            &&& forall|i: int, j: int|
                0 <= i < j < r.len() ==> (#[trigger] r[j]).3 <= (#[trigger] r[i]).3
        }),
{
    let r = sort_by(
        candidates_of(data_entries(stream_data), sdk_params, data_entries(stream_data).len() as int),
        higher_candidate(),
    );
    higher_candidate_orders();
    sort_by_orders(
        candidates_of(data_entries(stream_data), sdk_params, data_entries(stream_data).len() as int),
        higher_candidate(),
    );
    assert forall|i: int, j: int| 0 <= i < j < r.len() implies (#[trigger] r[j]).3 <= (#[trigger] r[i]).3 by {
        assert(!(higher_candidate())(r[j], r[i]));
    }
}

} // verus!
