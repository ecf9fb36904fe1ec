//! What a YouTube watch or channel page says about a live stream, and the
//! JSON scanning that finds its embedded data.
use vstd::prelude::*;

use crate::errors::RecorderError;
use crate::json::{at, str_member, Json};
use crate::media::stream_info::{first_value, or_empty};
use crate::outside::{form_decoded, form_pairs, opt_view, parse_url, parsed_url, ParsedUrl, UrlParts};
use crate::text::{
    append_chars, append_str, chars_of, contains, contains_str, find_chars_from, find_from, lemma_find_from,
    slice_chars, string_of,
};
use vstd::string::StringExecFns;

verus! {

/// The live data read from a YouTube page.
#[derive(Clone, Debug)]
pub struct YoutubePage {
    pub video_id: String,
    pub title: String,
    pub cover: String,
    pub channel_id: String,
    pub channel_name: String,
    pub is_live: bool,
    pub hls_url: Option<String>,
}

/// Records the HLS manifest of the page's player; a page without one is not
/// live, whatever its badges say.
pub fn apply_player_hls(page: &mut YoutubePage, hls_url: Option<String>)
    ensures
        final(page).hls_url == hls_url,
        final(page).is_live == (old(page).is_live && hls_url is Some),
        final(page).video_id == old(page).video_id,
        final(page).title == old(page).title,
        final(page).cover == old(page).cover,
        final(page).channel_id == old(page).channel_id,
        final(page).channel_name == old(page).channel_name,
{
    page.hls_url = hls_url;
    if page.hls_url.is_none() {
        page.is_live = false;
    }
}

/// The closing bracket that matches an opening one.
pub open spec fn opener_of(c: char) -> char {
    if c == '}' {
        '{'
    } else {
        '['
    }
}

/// Scans `s` from index `i` with the open brackets `stack` (innermost last),
/// inside a string or not, after a backslash in a string or not. Gives the
/// index just past the bracket that closes the outermost one; `None` when a
/// closing bracket does not match or the text ends first.
pub open spec fn json_scan(s: Seq<char>, i: int, stack: Seq<char>, in_string: bool, escaped: bool) -> Option<
    int,
>
    decreases s.len() - i,
{
    if i < 0 || i >= s.len() {
        None
    } else {
        let ch = s[i];
        if in_string {
            if escaped {
                json_scan(s, i + 1, stack, true, false)
            } else if ch == '\\' {
                json_scan(s, i + 1, stack, true, true)
            } else if ch == '"' {
                json_scan(s, i + 1, stack, false, false)
            } else {
                json_scan(s, i + 1, stack, true, false)
            }
        } else if ch == '"' {
            json_scan(s, i + 1, stack, true, false)
        } else if ch == '{' || ch == '[' {
            json_scan(s, i + 1, stack.push(ch), false, false)
        } else if ch == '}' || ch == ']' {
            if stack.len() == 0 || stack.last() != opener_of(ch) {
                None
            } else if stack.len() == 1 {
                Some(i + 1)
            } else {
                json_scan(s, i + 1, stack.drop_last(), false, false)
            }
        } else {
            json_scan(s, i + 1, stack, false, false)
        }
    }
}

/// The JSON object or array at the start of `s`, up to its matching
/// closing bracket (brackets inside strings do not count).
pub open spec fn balanced_prefix(s: Seq<char>) -> Option<Seq<char>> {
    if s.len() == 0 || (s[0] != '{' && s[0] != '[') {
        None
    } else {
        match json_scan(s, 1, seq![s[0]], false, false) {
            Some(k) => Some(s.take(k)),
            None => None,
        }
    }
}

pub fn balanced_json(value: &[char]) -> (r: Option<Vec<char>>)
    ensures
        match (r, balanced_prefix(value@)) {
            (Some(v), Some(sv)) => v@ == sv,
            (None, None) => true,
            _ => false,
        },
{
    if value.len() == 0 {
        return None;
    }
    let first = value[0];
    if first != '{' && first != '[' {
        return None;
    }
    let mut stack: Vec<char> = vec![first];
    let mut in_string = false;
    let mut escaped = false;
    let mut i: usize = 1;
    assert(stack@ =~= seq![first]);
    while i < value.len()
        invariant
            1 <= i <= value.len(),
            stack@.len() >= 1,
            !in_string ==> !escaped,
            value@[0] == first,
            first == '{' || first == '[',
            json_scan(value@, 1, seq![first], false, false) == json_scan(
                value@,
                i as int,
                stack@,
                in_string,
                escaped,
            ),
        decreases value.len() - i,
    {
        let ch = value[i];
        if in_string {
            if escaped {
                escaped = false;
            } else if ch == '\\' {
                escaped = true;
            } else if ch == '"' {
                in_string = false;
            }
            i += 1;
            continue;
        }
        if ch == '"' {
            in_string = true;
        } else if ch == '{' || ch == '[' {
            stack.push(ch);
        } else if ch == '}' || ch == ']' {
            let expected = if ch == '}' {
                '{'
            } else {
                '['
            };
            let top = stack[stack.len() - 1];
            if top != expected {
                return None;
            }
            if stack.len() == 1 {
                return Some(slice_chars(value, 0, i + 1));
            }
            stack.pop();
        }
        i += 1;
    }
    None
}

// ---------------------------------------------------------------------------
// JSON values written after a marker
// ---------------------------------------------------------------------------

/// The first index of an opening bracket.
pub open spec fn first_opener(s: Seq<char>) -> Option<int>
    decreases s.len(),
{
    if s.len() == 0 {
        None
    } else if s[0] == '{' || s[0] == '[' {
        Some(0)
    } else {
        match first_opener(s.drop_first()) {
            Some(k) => Some(k + 1),
            None => None,
        }
    }
}

/// The balanced JSON text that starts at the first opening bracket of `s`.
pub open spec fn json_after(s: Seq<char>) -> Option<Seq<char>> {
    match first_opener(s) {
        Some(k) => balanced_prefix(s.skip(k)),
        None => None,
    }
}

/// The JSON texts written after the occurrences of `marker` in `html` from
/// index `from` on (occurrences found left to right without overlap), in
/// order; an occurrence without a balanced value after it gives none.
pub open spec fn marker_json_texts(html: Seq<char>, marker: Seq<char>, from: int) -> Seq<Seq<char>>
    decreases html.len() + 1 - from,
{
    if marker.len() == 0 || from < 0 {
        Seq::empty()
    } else {
        match find_from(html, marker, from) {
            None => Seq::empty(),
            Some(k) => {
                proof {
                    lemma_find_from(html, marker, from);
                }
                let tail = marker_json_texts(html, marker, k + marker.len());
                match json_after(html.skip(k + marker.len())) {
                    Some(t) => seq![t] + tail,
                    None => tail,
                }
            },
        }
    }
}

fn first_opener_exec(s: &[char]) -> (r: Option<usize>)
    ensures
        r matches Some(k) ==> first_opener(s@) == Some(k as int) && k < s.len(),
        r is None ==> first_opener(s@) is None,
{
    let mut i: usize = 0;
    assert(s@.skip(0) =~= s@);
    while i < s.len()
        invariant
            i <= s.len(),
            first_opener(s@) == match first_opener(s@.skip(i as int)) {
                Some(k) => Some(k + i),
                None => None,
            },
        decreases s.len() - i,
    {
        assert(s@.skip(i as int)[0] == s@[i as int]);
        assert(s@.skip(i as int).drop_first() =~= s@.skip(i + 1));
        if s[i] == '{' || s[i] == '[' {
            return Some(i);
        }
        i += 1;
    }
    assert(s@.skip(i as int) =~= Seq::<char>::empty());
    None
}

/// The JSON texts written after `marker` in `html` (see `marker_json_texts`).
pub fn json_texts_after_marker(html: &str, marker: &str) -> (r: Vec<String>)
    ensures
        crate::outside::strings_view(r@) == marker_json_texts(html@, marker@, 0),
{
    let h = chars_of(html);
    let m = chars_of(marker);
    let mut r: Vec<String> = Vec::new();
    if m.len() == 0 {
        return r;
    }
    let mut from: usize = 0;
    while from <= h.len()
        invariant
            m@ == marker@,
            h@ == html@,
            m.len() > 0,
            marker_json_texts(html@, marker@, 0) == crate::outside::strings_view(r@)
                + marker_json_texts(html@, marker@, from as int),
        ensures
            marker_json_texts(html@, marker@, from as int) =~= Seq::<Seq<char>>::empty(),
        decreases h.len() + 1 - from,
    {
        match find_chars_from(&h, &m, from) {
            None => {
                assert(marker_json_texts(html@, marker@, from as int) =~= Seq::<Seq<char>>::empty());
                break;
            },
            Some(k) => {
                proof {
                    lemma_find_from(html@, marker@, from as int);
                }
                let rest = slice_chars(&h, k + m.len(), h.len());
                assert(rest@ =~= html@.skip(k + m.len()));
                let ghost old_r = crate::outside::strings_view(r@);
                match first_opener_exec(&rest) {
                    Some(st) => {
                        let tail = slice_chars(&rest, st, rest.len());
                        assert(tail@ =~= rest@.skip(st as int));
                        match balanced_json(&tail) {
                            Some(t) => {
                                r.push(string_of(&t));
                                assert(crate::outside::strings_view(r@) =~= old_r.push(t@));
                                assert(old_r + marker_json_texts(html@, marker@, from as int) =~= old_r.push(t@)
                                    + marker_json_texts(html@, marker@, (k + m.len()) as int));
                            },
                            None => {},
                        }
                    },
                    None => {},
                }
                from = k + m.len();
            },
        }
    }
    assert(crate::outside::strings_view(r@) + Seq::<Seq<char>>::empty() =~= crate::outside::strings_view(r@));
    r
}

// ---------------------------------------------------------------------------
// Reading the page data
// ---------------------------------------------------------------------------

/// `value.get(key).and_then(Value::as_str)` after an optional step.
pub open spec fn str_at(value: Option<Json>, key: Seq<char>) -> Option<Seq<char>> {
    match at(value, key) {
        Some(v) => v.str_value(),
        None => None,
    }
}

/// `value.get(key).and_then(Value::as_bool)` after an optional step.
pub open spec fn bool_at(value: Option<Json>, key: Seq<char>) -> Option<bool> {
    match at(value, key) {
        Some(v) => v.bool_value(),
        None => None,
    }
}

/// The items of a member that is an array.
pub open spec fn array_at(value: Option<Json>, key: Seq<char>) -> Option<Seq<Json>> {
    match at(value, key) {
        Some(v) => v.array_items(),
        None => None,
    }
}

/// The texts of the runs that have one, joined.
pub open spec fn run_texts(runs: Seq<Json>) -> Seq<char>
    decreases runs.len(),
{
    if runs.len() == 0 {
        Seq::empty()
    } else {
        run_texts(runs.drop_last()) + match str_member(runs.last(), "text"@) {
            Some(t) => t,
            None => Seq::empty(),
        }
    }
}

/// The text of a YouTube text value: its `simpleText`, `text` or `content`
/// string, else its `runs` joined.
pub open spec fn text_value(v: Json) -> Option<Seq<char>> {
    match str_member(v, "simpleText"@) {
        Some(t) => Some(t),
        None => match str_member(v, "text"@) {
            Some(t) => Some(t),
            None => match str_member(v, "content"@) {
                Some(t) => Some(t),
                None => match array_at(Some(v), "runs"@) {
                    Some(runs) => Some(run_texts(runs)),
                    None => None,
                },
            },
        },
    }
}

/// The URL of the last thumbnail.
pub open spec fn thumbnails_url(v: Json) -> Option<Seq<char>> {
    match array_at(Some(v), "thumbnails"@) {
        Some(items) => if items.len() > 0 {
            str_member(items.last(), "url"@)
        } else {
            None
        },
        None => None,
    }
}

/// The browse id of the first run of a byline.
pub open spec fn first_browse_id(v: Json) -> Option<Seq<char>> {
    match array_at(Some(v), "runs"@) {
        Some(runs) => if runs.len() > 0 {
            str_at(at(at(Some(runs[0]), "navigationEndpoint"@), "browseEndpoint"@), "browseId"@)
        } else {
            None
        },
        None => None,
    }
}

/// The channel that owns a video card: the browse id of its owner text,
/// else of its short byline.
pub open spec fn video_owner_id(r: Json) -> Option<Seq<char>> {
    let owner = match r.lookup("ownerText"@) {
        Some(o) => first_browse_id(o),
        None => None,
    };
    match owner {
        Some(id) => Some(id),
        None => match r.lookup("shortBylineText"@) {
            Some(o) => first_browse_id(o),
            None => None,
        },
    }
}

/// A badge that says the video is live.
pub open spec fn live_badge(b: Json) -> bool {
    match at(at(Some(b), "metadataBadgeRenderer"@), "label"@) {
        Some(l) => match text_value(l) {
            Some(t) => contains(crate::text::upper(t), "LIVE"@),
            None => false,
        },
        None => false,
    }
}

/// A thumbnail overlay that says the video is live.
pub open spec fn live_overlay(o: Json) -> bool {
    let r = o.lookup("thumbnailOverlayTimeStatusRenderer"@);
    (match str_at(r, "style"@) {
        Some(s) => crate::text::lower(s) == "live"@,
        None => false,
    }) || (match at(r, "text"@) {
        Some(t) => match text_value(t) {
            Some(x) => crate::text::lower(x) == "live"@,
            None => false,
        },
        None => false,
    })
}

/// Whether a video card shows that the video is live, by a badge or by a
/// thumbnail overlay.
pub open spec fn live_renderer(r: Json) -> bool {
    r is Object && ((match array_at(Some(r), "badges"@) {
        Some(items) => exists|i: int| 0 <= i < items.len() && live_badge(#[trigger] items[i]),
        None => false,
    }) || (match array_at(Some(r), "thumbnailOverlays"@) {
        Some(items) => exists|i: int| 0 <= i < items.len() && live_overlay(#[trigger] items[i]),
        None => false,
    }))
}

/// A live video card of channel `cid` with a valid video id.
pub open spec fn live_card_of(r: Json, cid: Seq<char>) -> bool {
    or_empty(video_owner_id(r)) == cid && (match str_member(r, "videoId"@) {
        Some(id) => super::video_id(id),
        None => false,
    }) && live_renderer(r)
}

/// The first live video card of channel `cid` in a value, searched depth
/// first: an object's own `videoRenderer` first, then its members' values in
/// order; an array's items in order.
pub open spec fn find_live_card(value: Json, cid: Seq<char>) -> Option<Json>
    decreases value,
{
    match value {
        Json::Object(m) => {
            let own = match crate::json::member(m@, "videoRenderer"@) {
                Some(r) => if live_card_of(r, cid) {
                    Some(r)
                } else {
                    None
                },
                None => None,
            };
            match own {
                Some(r) => Some(r),
                None => member_live_card(m@, cid),
            }
        },
        Json::Array(items) => item_live_card(items@, cid),
        _ => None,
    }
}

pub open spec fn member_live_card(m: Seq<(String, Json)>, cid: Seq<char>) -> Option<Json>
    decreases m,
{
    if m.len() == 0 {
        None
    } else {
        match find_live_card(m[0].1, cid) {
            Some(r) => Some(r),
            None => member_live_card(m.drop_first(), cid),
        }
    }
}

pub open spec fn item_live_card(items: Seq<Json>, cid: Seq<char>) -> Option<Json>
    decreases items,
{
    if items.len() == 0 {
        None
    } else {
        match find_live_card(items[0], cid) {
            Some(r) => Some(r),
            None => item_live_card(items.drop_first(), cid),
        }
    }
}

/// The first tab renderer whose `selected` is `true`.
pub open spec fn selected_tab(tabs: Seq<Json>) -> Option<Json>
    decreases tabs.len(),
{
    if tabs.len() == 0 {
        None
    } else {
        match tabs[0].lookup("tabRenderer"@) {
            Some(t) => if bool_at(Some(t), "selected"@) == Some(true) {
                Some(t)
            } else {
                selected_tab(tabs.drop_first())
            },
            None => selected_tab(tabs.drop_first()),
        }
    }
}

/// The live card of channel `cid` in the selected tab of a channel page.
pub open spec fn selected_live_card(data: Json, cid: Seq<char>) -> Option<Json> {
    if cid.len() == 0 {
        None
    } else {
        match array_at(at(at(Some(data), "contents"@), "twoColumnBrowseResultsRenderer"@), "tabs"@) {
            Some(tabs) => match selected_tab(tabs) {
                Some(tab) => match tab.lookup("content"@) {
                    Some(content) => find_live_card(content, cid),
                    None => None,
                },
                None => None,
            },
            None => None,
        }
    }
}

/// The `v` query parameter of the page's URL.
pub open spec fn url_video_param(url: Seq<char>) -> Option<Seq<char>> {
    match parsed_url(url) {
        Ok(u) => parts_video_param(u),
        Err(_) => None,
    }
}

/// The first `v` value of a parsed URL's query.
pub open spec fn parts_video_param(u: UrlParts) -> Option<Seq<char>> {
    match u.query {
        Some(q) => first_value(form_decoded(q), "v"@),
        None => None,
    }
}

/// A page as plain values: video id, title, cover, channel id and name,
/// live, HLS URL.
pub open spec fn page_view(p: YoutubePage) -> (Seq<char>, Seq<char>, Seq<char>, Seq<char>, Seq<char>, bool, Option<Seq<char>>) {
    (p.video_id@, p.title@, p.cover@, p.channel_id@, p.channel_name@, p.is_live, opt_view(p.hls_url))
}

/// What a watch page's player data says: the video id (from the details,
/// else the URL; required), the title (else the description, else `YouTube
/// live`), the channel, the last thumbnail, the HLS manifest, and whether it
/// is live now (by the microformat or the details).
pub open spec fn player_page(player: Json, url: Seq<char>) -> Result<
    (Seq<char>, Seq<char>, Seq<char>, Seq<char>, Seq<char>, bool, Option<Seq<char>>),
    Seq<char>,
> {
    let details = match player.lookup("videoDetails"@) {
        Some(d) => d,
        None => Json::Null,
    };
    let video_id = match str_member(details, "videoId"@) {
        Some(v) => v,
        None => or_empty(url_video_param(url)),
    };
    if video_id.len() == 0 {
        Err("YouTube video id not found"@)
    } else {
        let title = match str_member(details, "title"@) {
            Some(t) => t,
            None => match str_member(details, "shortDescription"@) {
                Some(t) => t,
                None => "YouTube live"@,
            },
        };
        let live_now = bool_at(
            at(at(player.lookup("microformat"@), "playerMicroformatRenderer"@), "liveBroadcastDetails"@),
            "isLiveNow"@,
        ) == Some(true);
        Ok(
            (
                video_id,
                title,
                match details.lookup("thumbnail"@) {
                    Some(t) => or_empty(thumbnails_url(t)),
                    None => Seq::empty(),
                },
                or_empty(str_member(details, "channelId"@)),
                or_empty(str_member(details, "author"@)),
                live_now || bool_at(Some(details), "isLive"@) == Some(true),
                str_at(player.lookup("streamingData"@), "hlsManifestUrl"@),
            ),
        )
    }
}

/// What a channel's `/live` page says: its live card in the selected tab
/// (which must carry a valid video id), else a page that is not live.
pub open spec fn channel_page(data: Json, url: Seq<char>) -> Result<
    (Seq<char>, Seq<char>, Seq<char>, Seq<char>, Seq<char>, bool, Option<Seq<char>>),
    Seq<char>,
> {
    let channel = at(Some(data), "metadata"@);
    let cid = or_empty(str_at(at(channel, "channelMetadataRenderer"@), "externalId"@));
    let cname = or_empty(str_at(at(channel, "channelMetadataRenderer"@), "title"@));
    match selected_live_card(data, cid) {
        Some(r) => {
            let vid = or_empty(str_member(r, "videoId"@));
            if !super::video_id(vid) {
                Err("YouTube live video id not found"@)
            } else {
                Ok(
                    (
                        vid,
                        match r.lookup("title"@) {
                            Some(t) => match text_value(t) {
                                Some(x) => x,
                                None => "YouTube live"@,
                            },
                            None => "YouTube live"@,
                        },
                        match r.lookup("thumbnail"@) {
                            Some(t) => or_empty(thumbnails_url(t)),
                            None => Seq::empty(),
                        },
                        cid,
                        cname,
                        true,
                        None,
                    ),
                )
            }
        },
        None => Ok(
            (
                or_empty(url_video_param(url)),
                if cname.len() == 0 {
                    "YouTube live"@
                } else {
                    cname
                },
                Seq::empty(),
                cid,
                cname,
                false,
                None,
            ),
        ),
    }
}

/// Whether a parsed value is player data.
pub open spec fn is_player(v: Json) -> bool {
    v.lookup("videoDetails"@) is Some || v.lookup("streamingData"@) is Some
        || v.lookup("playabilityStatus"@) is Some
}

/// The first value that is player data.
pub open spec fn first_player(values: Seq<Json>) -> Option<Json>
    decreases values.len(),
{
    if values.len() == 0 {
        None
    } else if is_player(values[0]) {
        Some(values[0])
    } else {
        first_player(values.drop_first())
    }
}

/// What a page says, given the values parsed after its
/// `ytInitialPlayerResponse` and `ytInitialData` markers: the first player
/// data, else the first initial data, else an error.
pub open spec fn page_of(players: Seq<Json>, datas: Seq<Json>, url: Seq<char>) -> Result<
    (Seq<char>, Seq<char>, Seq<char>, Seq<char>, Seq<char>, bool, Option<Seq<char>>),
    Seq<char>,
> {
    match first_player(players) {
        Some(p) => player_page(p, url),
        None => if datas.len() > 0 {
            channel_page(datas[0], url)
        } else {
            Err("YouTube page data not found"@)
        },
    }
}

fn opt_ref(v: Option<&Json>) -> (r: Ghost<Option<Json>>)
    ensures
        r@ == (match v {
            Some(j) => Some(*j),
            None => None::<Json>,
        }),
{
    Ghost(
        match v {
            Some(j) => Some(*j),
            None => None,
        },
    )
}

fn str_at_exec(value: Option<&Json>, key: &str) -> (r: Option<String>)
    ensures
        opt_view(r) == str_at(
            match value {
                Some(j) => Some(*j),
                None => None::<Json>,
            },
            key@,
        ),
{
    match crate::json::get_at(value, key) {
        Some(v) => match v.as_str() {
            Some(s) => Some(s.clone()),
            None => None,
        },
        None => None,
    }
}

fn bool_at_exec(value: Option<&Json>, key: &str) -> (r: Option<bool>)
    ensures
        r == bool_at(
            match value {
                Some(j) => Some(*j),
                None => None::<Json>,
            },
            key@,
        ),
{
    match crate::json::get_at(value, key) {
        Some(v) => v.as_bool(),
        None => None,
    }
}

fn array_at_exec<'a>(value: Option<&'a Json>, key: &str) -> (r: Option<&'a Vec<Json>>)
    ensures
        r is Some <==> array_at(
            match value {
                Some(j) => Some(*j),
                None => None::<Json>,
            },
            key@,
        ) is Some,
        r matches Some(items) ==> array_at(
            match value {
                Some(j) => Some(*j),
                None => None::<Json>,
            },
            key@,
        ) == Some(items@),
{
    match crate::json::get_at(value, key) {
        Some(v) => v.as_array(),
        None => None,
    }
}

fn run_texts_exec(runs: &Vec<Json>) -> (r: Vec<char>)
    ensures
        r@ == run_texts(runs@),
{
    let mut r: Vec<char> = Vec::new();
    let mut i: usize = 0;
    assert(runs@.take(0) =~= Seq::<Json>::empty());
    while i < runs.len()
        invariant
            i <= runs.len(),
            r@ == run_texts(runs@.take(i as int)),
        decreases runs.len() - i,
    {
        assert(runs@.take(i + 1).drop_last() =~= runs@.take(i as int));
        assert(runs@.take(i + 1).last() == runs@[i as int]);
        match runs[i].get_str("text") {
            Some(t) => append_str(&mut r, t.as_str()),
            None => {
                assert(r@ + Seq::<char>::empty() =~= r@);
            },
        }
        i += 1;
    }
    assert(runs@.take(runs.len() as int) =~= runs@);
    r
}

fn text_value_exec(v: &Json) -> (r: Option<String>)
    ensures
        opt_view(r) == text_value(*v),
{
    if let Some(t) = v.get_str("simpleText") {
        return Some(t);
    }
    if let Some(t) = v.get_str("text") {
        return Some(t);
    }
    if let Some(t) = v.get_str("content") {
        return Some(t);
    }
    match array_at_exec(Some(v), "runs") {
        Some(runs) => Some(string_of(&run_texts_exec(runs))),
        None => None,
    }
}

fn thumbnails_url_exec(v: &Json) -> (r: Option<String>)
    ensures
        opt_view(r) == thumbnails_url(*v),
{
    match array_at_exec(Some(v), "thumbnails") {
        Some(items) => if items.len() > 0 {
            items[items.len() - 1].get_str("url")
        } else {
            None
        },
        None => None,
    }
}

fn first_browse_id_exec(v: &Json) -> (r: Option<String>)
    ensures
        opt_view(r) == first_browse_id(*v),
{
    match array_at_exec(Some(v), "runs") {
        Some(runs) => if runs.len() > 0 {
            let nav = crate::json::get_at(Some(&runs[0]), "navigationEndpoint");
            let browse = crate::json::get_at(nav, "browseEndpoint");
            str_at_exec(browse, "browseId")
        } else {
            None
        },
        None => None,
    }
}

fn video_owner_id_exec(r: &Json) -> (o: Option<String>)
    ensures
        opt_view(o) == video_owner_id(*r),
{
    let owner = match r.get("ownerText") {
        Some(o) => first_browse_id_exec(o),
        None => None,
    };
    match owner {
        Some(id) => Some(id),
        None => match r.get("shortBylineText") {
            Some(o) => first_browse_id_exec(o),
            None => None,
        },
    }
}

fn live_badge_exec(b: &Json) -> (r: bool)
    ensures
        r == live_badge(*b),
{
    match crate::json::get_at(b.get("metadataBadgeRenderer"), "label") {
        Some(l) => match text_value_exec(l) {
            Some(t) => contains_str(&crate::text::to_upper(&chars_of(t.as_str())), "LIVE"),
            None => false,
        },
        None => false,
    }
}

fn is_live_word(s: &String) -> (r: bool)
    ensures
        r == (crate::text::lower(s@) == "live"@),
{
    crate::text::eq_str(&crate::text::to_lower(&chars_of(s.as_str())), "live")
}

fn live_overlay_exec(o: &Json) -> (r: bool)
    ensures
        r == live_overlay(*o),
{
    let r = o.get("thumbnailOverlayTimeStatusRenderer");
    let by_style = match str_at_exec(r, "style") {
        Some(s) => is_live_word(&s),
        None => false,
    };
    if by_style {
        return true;
    }
    match crate::json::get_at(r, "text") {
        Some(t) => match text_value_exec(t) {
            Some(x) => is_live_word(&x),
            None => false,
        },
        None => false,
    }
}

fn live_renderer_exec(r: &Json) -> (b: bool)
    ensures
        b == live_renderer(*r),
{
    match r {
        Json::Object(_) => {},
        _ => {
            return false;
        },
    }
    if let Some(items) = array_at_exec(Some(r), "badges") {
        let mut i: usize = 0;
        while i < items.len()
            invariant
                i <= items.len(),
                *r is Object,
                array_at(Some(*r), "badges"@) == Some(items@),
                forall|k: int| 0 <= k < i ==> !live_badge(#[trigger] items@[k]),
            decreases items.len() - i,
        {
            if live_badge_exec(&items[i]) {
                assert(live_badge(items@[i as int]));
                let ghost seq_items = array_at(Some(*r), "badges"@)->0;
                assert(seq_items == items@);
                assert(exists|k: int| 0 <= k < seq_items.len() && live_badge(#[trigger] seq_items[k]));
                return true;
            }
            i += 1;
        }
    }
    if let Some(items) = array_at_exec(Some(r), "thumbnailOverlays") {
        let mut i: usize = 0;
        while i < items.len()
            invariant
                i <= items.len(),
                *r is Object,
                array_at(Some(*r), "thumbnailOverlays"@) == Some(items@),
                forall|k: int| 0 <= k < i ==> !live_overlay(#[trigger] items@[k]),
            decreases items.len() - i,
        {
            if live_overlay_exec(&items[i]) {
                assert(live_overlay(items@[i as int]));
                let ghost seq_items = array_at(Some(*r), "thumbnailOverlays"@)->0;
                assert(seq_items == items@);
                assert(exists|k: int| 0 <= k < seq_items.len() && live_overlay(#[trigger] seq_items[k]));
                return true;
            }
            i += 1;
        }
    }
    false
}

fn live_card_of_exec(r: &Json, cid: &String) -> (b: bool)
    ensures
        b == live_card_of(*r, cid@),
{
    let owner = match video_owner_id_exec(r) {
        Some(o) => o,
        None => String::new(),
    };
    if owner != *cid {
        return false;
    }
    let valid = match r.get_str("videoId") {
        Some(id) => super::is_video_id(&chars_of(id.as_str())),
        None => false,
    };
    valid && live_renderer_exec(r)
}

fn find_live_card_exec<'a>(value: &'a Json, cid: &String) -> (r: Option<&'a Json>)
    ensures
        r is Some <==> find_live_card(*value, cid@) is Some,
        r matches Some(c) ==> find_live_card(*value, cid@) == Some(*c),
    decreases value,
{
    match value {
        Json::Object(m) => {
            if let Some(card) = value.get("videoRenderer") {
                if live_card_of_exec(card, cid) {
                    return Some(card);
                }
            }
            let mut i: usize = 0;
            assert(m@.skip(0) =~= m@);
            while i < m.len()
                invariant
                    i <= m.len(),
                    *value == Json::Object(*m),
                    (match crate::json::member(m@, "videoRenderer"@) {
                        Some(card) => !live_card_of(card, cid@),
                        None => true,
                    }),
                    member_live_card(m@, cid@) == member_live_card(m@.skip(i as int), cid@),
                decreases m.len() - i,
            {
                assert(m@.skip(i as int)[0] == m@[i as int]);
                assert(m@.skip(i as int).drop_first() =~= m@.skip(i + 1));
                proof {
                    assert(decreases_to!(*value => m@[i as int].1));
                }
                if let Some(card) = find_live_card_exec(&m[i].1, cid) {
                    return Some(card);
                }
                i += 1;
            }
            assert(m@.skip(i as int) =~= Seq::<(String, Json)>::empty());
            None
        },
        Json::Array(items) => {
            let mut i: usize = 0;
            assert(items@.skip(0) =~= items@);
            while i < items.len()
                invariant
                    i <= items.len(),
                    *value == Json::Array(*items),
                    item_live_card(items@, cid@) == item_live_card(items@.skip(i as int), cid@),
                decreases items.len() - i,
            {
                assert(items@.skip(i as int)[0] == items@[i as int]);
                assert(items@.skip(i as int).drop_first() =~= items@.skip(i + 1));
                proof {
                    assert(decreases_to!(*value => items@[i as int]));
                }
                if let Some(card) = find_live_card_exec(&items[i], cid) {
                    return Some(card);
                }
                i += 1;
            }
            assert(items@.skip(i as int) =~= Seq::<Json>::empty());
            None
        },
        _ => None,
    }
}

fn selected_tab_exec(tabs: &Vec<Json>) -> (r: Option<&Json>)
    ensures
        r is Some <==> selected_tab(tabs@) is Some,
        r matches Some(t) ==> selected_tab(tabs@) == Some(*t),
{
    let mut i: usize = 0;
    assert(tabs@.skip(0) =~= tabs@);
    while i < tabs.len()
        invariant
            i <= tabs.len(),
            selected_tab(tabs@) == selected_tab(tabs@.skip(i as int)),
        decreases tabs.len() - i,
    {
        assert(tabs@.skip(i as int)[0] == tabs@[i as int]);
        assert(tabs@.skip(i as int).drop_first() =~= tabs@.skip(i + 1));
        if let Some(t) = tabs[i].get("tabRenderer") {
            if bool_at_exec(Some(t), "selected") == Some(true) {
                return Some(t);
            }
        }
        i += 1;
    }
    assert(tabs@.skip(i as int) =~= Seq::<Json>::empty());
    None
}

fn selected_live_card_exec<'a>(data: &'a Json, cid: &String) -> (r: Option<&'a Json>)
    ensures
        r is Some <==> selected_live_card(*data, cid@) is Some,
        r matches Some(c) ==> selected_live_card(*data, cid@) == Some(*c),
{
    if cid.as_str().is_empty() {
        return None;
    }
    let renderer = crate::json::get_at(data.get("contents"), "twoColumnBrowseResultsRenderer");
    let tabs = match array_at_exec(renderer, "tabs") {
        Some(t) => t,
        None => {
            return None;
        },
    };
    match selected_tab_exec(tabs) {
        Some(tab) => match tab.get("content") {
            Some(content) => find_live_card_exec(content, cid),
            None => None,
        },
        None => None,
    }
}

/// The first `v` value of a parsed URL's query (see `parts_video_param`).
pub fn video_param_of_url(u: &ParsedUrl) -> (r: Option<String>)
    ensures
        opt_view(r) == parts_video_param(u@),
{
    match &u.query {
        Some(q) => {
            let pairs = form_pairs(q.as_str());
            let ghost pv = pairs@.map_values(|p: (String, String)| (p.0@, p.1@));
            let mut i: usize = 0;
            assert(pv.skip(0) =~= pv);
            while i < pairs.len()
                invariant
                    i <= pairs.len(),
                    pv == pairs@.map_values(|p: (String, String)| (p.0@, p.1@)),
                    parts_video_param(u@) == first_value(pv, "v"@),
                    first_value(pv, "v"@) == first_value(pv.skip(i as int), "v"@),
                decreases pairs.len() - i,
            {
                assert(pv.skip(i as int)[0] == (pairs@[i as int].0@, pairs@[i as int].1@));
                assert(pv.skip(i as int).drop_first() =~= pv.skip(i + 1));
                if crate::text::eq_str(&chars_of(pairs[i].0.as_str()), "v") {
                    return Some(pairs[i].1.clone());
                }
                i += 1;
            }
            assert(pv.skip(i as int) =~= Seq::<(Seq<char>, Seq<char>)>::empty());
            None
        },
        None => None,
    }
}

fn url_video_param_exec(url: &str) -> (r: Option<String>)
    ensures
        opt_view(r) == url_video_param(url@),
{
    match parse_url(url) {
        Ok(u) => video_param_of_url(&u),
        Err(_) => None,
    }
}

fn or_empty_str(o: Option<String>) -> (r: String)
    ensures
        r@ == or_empty(opt_view(o)),
{
    match o {
        Some(s) => s,
        None => String::new(),
    }
}

fn player_page_exec(player: &Json, url: &str) -> (r: Result<YoutubePage, RecorderError>)
    ensures
        match player_page(*player, url@) {
            Ok(t) => r matches Ok(p) && page_view(p) == t,
            Err(m) => r matches Err(RecorderError::ApiError { error }) && error@ == m,
        },
{
    let null = Json::Null;
    let details = match player.get("videoDetails") {
        Some(d) => d,
        None => &null,
    };
    let video_id = match details.get_str("videoId") {
        Some(v) => v,
        None => or_empty_str(url_video_param_exec(url)),
    };
    if video_id.as_str().is_empty() {
        return Err(RecorderError::ApiError { error: String::from_str("YouTube video id not found") });
    }
    let title = match details.get_str("title") {
        Some(t) => t,
        None => match details.get_str("shortDescription") {
            Some(t) => t,
            None => String::from_str("YouTube live"),
        },
    };
    let cover = match details.get("thumbnail") {
        Some(t) => or_empty_str(thumbnails_url_exec(t)),
        None => String::new(),
    };
    let micro = crate::json::get_at(player.get("microformat"), "playerMicroformatRenderer");
    let broadcast = crate::json::get_at(micro, "liveBroadcastDetails");
    let live_now = bool_at_exec(broadcast, "isLiveNow") == Some(true);
    let is_live = live_now || bool_at_exec(Some(details), "isLive") == Some(true);
    Ok(
        YoutubePage {
            video_id,
            title,
            cover,
            channel_id: or_empty_str(details.get_str("channelId")),
            channel_name: or_empty_str(details.get_str("author")),
            is_live,
            hls_url: str_at_exec(player.get("streamingData"), "hlsManifestUrl"),
        },
    )
}

fn channel_page_exec(data: &Json, url: &str) -> (r: Result<YoutubePage, RecorderError>)
    ensures
        match channel_page(*data, url@) {
            Ok(t) => r matches Ok(p) && page_view(p) == t,
            Err(m) => r matches Err(RecorderError::ApiError { error }) && error@ == m,
        },
{
    let channel = crate::json::get_at(data.get("metadata"), "channelMetadataRenderer");
    let cid = or_empty_str(str_at_exec(channel, "externalId"));
    let cname = or_empty_str(str_at_exec(channel, "title"));
    match selected_live_card_exec(data, &cid) {
        Some(r) => {
            let vid = or_empty_str(r.get_str("videoId"));
            if !super::is_video_id(&chars_of(vid.as_str())) {
                return Err(
                    RecorderError::ApiError { error: String::from_str("YouTube live video id not found") },
                );
            }
            let title = match r.get("title") {
                Some(t) => match text_value_exec(t) {
                    Some(x) => x,
                    None => String::from_str("YouTube live"),
                },
                None => String::from_str("YouTube live"),
            };
            let cover = match r.get("thumbnail") {
                Some(t) => or_empty_str(thumbnails_url_exec(t)),
                None => String::new(),
            };
            Ok(
                YoutubePage {
                    video_id: vid,
                    title,
                    cover,
                    channel_id: cid,
                    channel_name: cname,
                    is_live: true,
                    hls_url: None,
                },
            )
        },
        None => {
            let title = if cname.as_str().is_empty() {
                String::from_str("YouTube live")
            } else {
                cname.clone()
            };
            Ok(
                YoutubePage {
                    video_id: or_empty_str(url_video_param_exec(url)),
                    title,
                    cover: String::new(),
                    channel_id: cid,
                    channel_name: cname,
                    is_live: false,
                    hls_url: None,
                },
            )
        },
    }
}

fn is_player_exec(v: &Json) -> (r: bool)
    ensures
        r == is_player(*v),
{
    v.get("videoDetails").is_some() || v.get("streamingData").is_some() || v.get(
        "playabilityStatus",
    ).is_some()
}

/// The live data of a page (see `page_of`), given the values parsed from
/// the JSON texts after its `ytInitialPlayerResponse` and `ytInitialData`
/// markers (`json_texts_after_marker`) and the page's URL.
pub fn parse_page_values(players: &Vec<Json>, datas: &Vec<Json>, final_url: &str) -> (r: Result<
    YoutubePage,
    RecorderError,
>)
    ensures
        match page_of(players@, datas@, final_url@) {
            Ok(t) => r matches Ok(p) && page_view(p) == t,
            Err(m) => r matches Err(RecorderError::ApiError { error }) && error@ == m,
        },
{
    let mut i: usize = 0;
    assert(players@.skip(0) =~= players@);
    while i < players.len()
        invariant
            i <= players.len(),
            first_player(players@) == first_player(players@.skip(i as int)),
        decreases players.len() - i,
    {
        assert(players@.skip(i as int)[0] == players@[i as int]);
        assert(players@.skip(i as int).drop_first() =~= players@.skip(i + 1));
        if is_player_exec(&players[i]) {
            return player_page_exec(&players[i], final_url);
        }
        i += 1;
    }
    assert(players@.skip(i as int) =~= Seq::<Json>::empty());
    if datas.len() > 0 {
        channel_page_exec(&datas[0], final_url)
    } else {
        Err(RecorderError::ApiError { error: String::from_str("YouTube page data not found") })
    }
}


// ---------------------------------------------------------------------------
// The InnerTube player exchange
// ---------------------------------------------------------------------------

/// The Android client version the InnerTube player request names.
pub const YOUTUBE_ANDROID_CLIENT_VERSION: &'static str = "20.10.38";

/// The user agent of the Android client.
pub const YOUTUBE_ANDROID_USER_AGENT: &'static str = "com.google.android.youtube/20.10.38 (Linux; U; Android 15) gzip";

/// The first page configuration that holds an InnerTube API key member.
pub open spec fn innertube_config(configs: Seq<Json>) -> Option<Json>
    decreases configs.len(),
{
    if configs.len() == 0 {
        None
    } else if configs[0].lookup("INNERTUBE_API_KEY"@) is Some {
        Some(configs[0])
    } else {
        innertube_config(configs.drop_first())
    }
}

/// A member that is a non-empty text.
pub open spec fn nonempty_text(v: Json, key: Seq<char>) -> Option<Seq<char>> {
    match str_member(v, key) {
        Some(t) => if t.len() > 0 {
            Some(t)
        } else {
            None
        },
        None => None,
    }
}

/// The body of the InnerTube player request for `video_id` (with the
/// visitor data when there is one), as the JSON library writes it: members
/// in sorted order, texts quoted.
pub open spec fn player_body_text(video_id: Seq<char>, visitor: Option<Seq<char>>) -> Seq<char> {
    "{\"contentCheckOk\":true,\"context\":{\"client\":{\"androidSdkVersion\":35,\"clientName\":\"ANDROID\",\"clientVersion\":\"20.10.38\",\"gl\":\"US\",\"hl\":\"en\",\"platform\":\"MOBILE\""@
        + match visitor {
        Some(v) => ",\"visitorData\":"@ + crate::json::quoted(v),
        None => Seq::empty(),
    } + "}},\"racyCheckOk\":true,\"videoId\":"@ + crate::json::quoted(video_id) + "}"@
}

/// The InnerTube player request for `video_id`, from the page's
/// configurations: its URL (`.../youtubei/v1/player?key=` and the API key)
/// and its body; an error when no configuration holds the key member, or
/// the key is not a non-empty text.
pub open spec fn innertube_request_of(configs: Seq<Json>, video_id: Seq<char>) -> Result<
    (Seq<char>, Seq<char>),
    Seq<char>,
> {
    match innertube_config(configs) {
        None => Err("YouTube Innertube configuration was not found"@),
        Some(c) => match nonempty_text(c, "INNERTUBE_API_KEY"@) {
            None => Err("YouTube Innertube API key was not found"@),
            Some(key) => Ok(
                (
                    "https://www.youtube.com/youtubei/v1/player?key="@ + key,
                    player_body_text(video_id, nonempty_text(c, "VISITOR_DATA"@)),
                ),
            ),
        },
    }
}

fn nonempty_text_exec(v: &Json, key: &str) -> (r: Option<String>)
    ensures
        opt_view(r) == nonempty_text(*v, key@),
{
    match v.get_str(key) {
        Some(t) => if t.as_str().is_empty() {
            None
        } else {
            Some(t)
        },
        None => None,
    }
}

fn quoted_text(s: &str) -> (r: Vec<char>)
    ensures
        r@ == crate::json::quoted(s@),
{
    let t = crate::json::to_json_text(&Json::Str(s.to_string()));
    chars_of(t.as_str())
}

/// See `innertube_request_of`.
pub fn innertube_request(configs: &Vec<Json>, video_id: &str) -> (r: Result<(String, String), RecorderError>)
    ensures
        match innertube_request_of(configs@, video_id@) {
            Ok((url, body)) => r matches Ok((u, b)) && u@ == url && b@ == body,
            Err(msg) => r matches Err(RecorderError::ApiError { error }) && error@ == msg,
        },
{
    let mut i: usize = 0;
    assert(configs@.skip(0) =~= configs@);
    let mut found = false;
    while i < configs.len() && !found
        invariant
            i <= configs.len(),
            innertube_config(configs@) == innertube_config(configs@.skip(i as int)),
            found ==> i < configs.len() && configs@[i as int].lookup("INNERTUBE_API_KEY"@) is Some,
        decreases configs.len() - i + (if found { 0int } else { 1int }),
    {
        assert(configs@.skip(i as int)[0] == configs@[i as int]);
        if configs[i].get("INNERTUBE_API_KEY").is_some() {
            found = true;
        } else {
            assert(configs@.skip(i as int).drop_first() =~= configs@.skip(i + 1));
            i += 1;
        }
    }
    if !found {
        assert(configs@.skip(i as int) =~= Seq::<Json>::empty());
        return Err(RecorderError::ApiError { error: "YouTube Innertube configuration was not found".to_string() });
    }
    assert(configs@.skip(i as int)[0] == configs@[i as int]);
    let config = &configs[i];
    let key = match nonempty_text_exec(config, "INNERTUBE_API_KEY") {
        Some(k) => k,
        None => return Err(RecorderError::ApiError { error: "YouTube Innertube API key was not found".to_string() }),
    };
    let mut url = chars_of("https://www.youtube.com/youtubei/v1/player?key=");
    append_str(&mut url, key.as_str());
    let mut body = chars_of(
        "{\"contentCheckOk\":true,\"context\":{\"client\":{\"androidSdkVersion\":35,\"clientName\":\"ANDROID\",\"clientVersion\":\"20.10.38\",\"gl\":\"US\",\"hl\":\"en\",\"platform\":\"MOBILE\"",
    );
    let ghost head = body@;
    let visitor = nonempty_text_exec(config, "VISITOR_DATA");
    match &visitor {
        Some(v) => {
            append_str(&mut body, ",\"visitorData\":");
            let q = quoted_text(v.as_str());
            append_chars(&mut body, &q);
        },
        None => {},
    }
    append_str(&mut body, "}},\"racyCheckOk\":true,\"videoId\":");
    let q = quoted_text(video_id);
    append_chars(&mut body, &q);
    append_str(&mut body, "}");
    proof {
        assert(body@ =~= player_body_text(video_id@, nonempty_text(*config, "VISITOR_DATA"@)));
    }
    Ok((string_of(&url), string_of(&body)))
}

/// The HLS manifest URL of an InnerTube player answer
/// (`streamingData.hlsManifestUrl`), if it offers one.
pub fn player_hls(answer: &Json) -> (r: Option<String>)
    ensures
        opt_view(r) == match answer.lookup("streamingData"@) {
            Some(sd) => str_member(sd, "hlsManifestUrl"@),
            None => None,
        },
{
    match answer.get("streamingData") {
        Some(sd) => sd.get_str("hlsManifestUrl"),
        None => None,
    }
}


/// The JSON documents among `texts` that parse, in order.
pub open spec fn parsed_documents(texts: Seq<Seq<char>>) -> Seq<Json>
    decreases texts.len(),
{
    if texts.len() == 0 {
        Seq::empty()
    } else {
        let prev = parsed_documents(texts.drop_last());
        match crate::outside::json_parsed(texts.last()) {
            Ok(v) => prev.push(v),
            Err(_) => prev,
        }
    }
}

/// The JSON documents written after `marker` in a page that parse, in
/// page order (see `marker_json_texts`).
pub fn page_documents(html: &str, marker: &str) -> (r: Vec<Json>)
    ensures
        r@ == parsed_documents(marker_json_texts(html@, marker@, 0)),
{
    let texts = json_texts_after_marker(html, marker);
    let ghost tv = crate::outside::strings_view(texts@);
    let mut r: Vec<Json> = Vec::new();
    let mut i: usize = 0;
    assert(tv.take(0) =~= Seq::<Seq<char>>::empty());
    while i < texts.len()
        invariant
            i <= texts.len(),
            tv == crate::outside::strings_view(texts@),
            r@ == parsed_documents(tv.take(i as int)),
        decreases texts.len() - i,
    {
        assert(tv.take(i + 1).drop_last() =~= tv.take(i as int));
        assert(tv.take(i + 1).last() == texts@[i as int]@);
        match crate::outside::parse_json(texts[i].as_str()) {
            Ok(v) => r.push(v),
            Err(_) => {},
        }
        i += 1;
    }
    assert(tv.take(texts.len() as int) =~= tv);
    r
}

/// The InnerTube player request (URL and JSON body) for a watch page: built
/// from the page's `ytcfg.set(...)` configurations (see `page_documents`).
pub fn player_request(watch_html: &str, video_id: &str) -> (r: Result<(String, String), RecorderError>)
    ensures
        match innertube_request_of(parsed_documents(marker_json_texts(watch_html@, "ytcfg.set"@, 0)), video_id@) {
            Ok((url, body)) => r matches Ok((u, b)) && u@ == url && b@ == body,
            Err(msg) => r matches Err(RecorderError::ApiError { error }) && error@ == msg,
        },
{
    let configs = page_documents(watch_html, "ytcfg.set");
    innertube_request(&configs, video_id)
}

/// The HLS manifest URL of a player answer body (see `player_hls`), or an
/// error when the body is not JSON.
pub fn player_answer_hls(body: &str) -> (r: Result<Option<String>, RecorderError>)
    ensures
        match crate::outside::json_parsed(body@) {
            Err(_) => r matches Err(RecorderError::ApiError { error }) && error@
                == "Invalid YouTube player response"@,
            Ok(answer) => r matches Ok(h) && opt_view(h) == match answer.lookup("streamingData"@) {
                Some(sd) => str_member(sd, "hlsManifestUrl"@),
                None => None,
            },
        },
{
    match crate::outside::parse_json(body) {
        Ok(answer) => Ok(player_hls(&answer)),
        Err(_) => Err(RecorderError::ApiError { error: String::from_str("Invalid YouTube player response") }),
    }
}


/// A fetched watch or channel page read into a page: its
/// `ytInitialPlayerResponse` and `ytInitialData` documents (see
/// `page_documents`), read as `parse_page_values` does.
pub fn parse_page(html: &str, final_url: &str) -> (r: Result<YoutubePage, RecorderError>)
    ensures
        match page_of(
            parsed_documents(marker_json_texts(html@, "ytInitialPlayerResponse"@, 0)),
            parsed_documents(marker_json_texts(html@, "ytInitialData"@, 0)),
            final_url@,
        ) {
            Ok(t) => r matches Ok(p) && page_view(p) == t,
            Err(m) => r matches Err(RecorderError::ApiError { error }) && error@ == m,
        },
{
    let players = page_documents(html, "ytInitialPlayerResponse");
    let datas = page_documents(html, "ytInitialData");
    parse_page_values(&players, &datas, final_url)
}


/// Two texts that are equal when ASCII letters are compared without case
/// (`str::eq_ignore_ascii_case`).
pub open spec fn same_ignoring_ascii_case(a: Seq<char>, b: Seq<char>) -> bool {
    a.len() == b.len() && forall|i: int|
        0 <= i < a.len() ==> crate::text::ascii_lower(#[trigger] a[i]) == crate::text::ascii_lower(b[i])
}

proof fn live_word_any_case(s: Seq<char>)
    ensures
        (crate::text::lower(s) == "live"@) <==> same_ignoring_ascii_case(s, "live"@),
{
    reveal_strlit("live");
    let w = "live"@;
    assert(w =~= seq!['l', 'i', 'v', 'e']);
    if same_ignoring_ascii_case(s, w) {
        assert forall|i: int| 0 <= i < s.len() implies crate::text::lower(s)[i] == w[i] by {
            assert(crate::text::ascii_lower(s[i]) == crate::text::ascii_lower(w[i]));
        }
        assert(crate::text::lower(s) =~= w);
    }
    if crate::text::lower(s) == w {
        assert forall|i: int| 0 <= i < s.len() implies crate::text::ascii_lower(#[trigger] s[i])
            == crate::text::ascii_lower(w[i]) by {
            assert(crate::text::lower(s)[i] == crate::text::ascii_lower(s[i]));
        }
    }
}

/// A thumbnail overlay marks a video card as live exactly when its
/// time-status renderer's style, or its text, is `LIVE` in any ASCII case
/// (`LIVE`, `live`, `Live`, ...).
pub proof fn live_overlay_ignores_case(o: Json)
    ensures
        live_overlay(o) <==> ({
            let r = o.lookup("thumbnailOverlayTimeStatusRenderer"@);
            (str_at(r, "style"@) matches Some(s) && same_ignoring_ascii_case(s, "live"@)) || (at(r, "text"@) matches Some(
                t,
            ) && text_value(t) matches Some(x) && same_ignoring_ascii_case(x, "live"@))
        }),
        ({
            let r = o.lookup("thumbnailOverlayTimeStatusRenderer"@);
            str_at(r, "style"@) == Some("LIVE"@)
        }) ==> live_overlay(o),
{
    let r = o.lookup("thumbnailOverlayTimeStatusRenderer"@);
    match str_at(r, "style"@) {
        Some(s) => live_word_any_case(s),
        None => {},
    }
    match at(r, "text"@) {
        Some(t) => match text_value(t) {
            Some(x) => live_word_any_case(x),
            None => {},
        },
        None => {},
    }
    reveal_strlit("LIVE");
    reveal_strlit("live");
    assert(same_ignoring_ascii_case("LIVE"@, "live"@));
}


/// A video card with a thumbnail overlay whose time-status style is `LIVE`
/// (in any ASCII case) is a live card, whatever its badges say.
pub proof fn live_style_overlay_marks_the_card(card: Json, k: int)
    requires
        card is Object,
        array_at(Some(card), "thumbnailOverlays"@) matches Some(items) && 0 <= k < items.len() && (str_at(
            items[k].lookup("thumbnailOverlayTimeStatusRenderer"@),
            "style"@,
        ) matches Some(s) && same_ignoring_ascii_case(s, "live"@)),
    ensures
        live_renderer(card),
{
    let items = array_at(Some(card), "thumbnailOverlays"@)->0;
    live_overlay_ignores_case(items[k]);
    assert(live_overlay(items[k]));
}

} // verus!
