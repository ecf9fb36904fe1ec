//! Stitched ads in HLS streams: the attribute lists of `#EXT-X-DATERANGE`
//! tags, which ranges mark an ad, and which segments fall inside one.
use vstd::prelude::*;

use crate::media::hls::{ranges_view, AdTimeRange};
use crate::outside::{lossy_text, strings_view, utf8_lossy};
use crate::text::{
    chars_of, eq_str, find_char, find_char_exec, lower, slice_chars, split_exec, split_on, starts_with,
    starts_with_str, string_of, to_lower, trim, trim_exec, vecs_view,
};

verus! {

// ---------------------------------------------------------------------------
// Attribute lists
// ---------------------------------------------------------------------------

/// The index of the first comma at or after `i` that is not inside double
/// quotes (quoting toggled by each `"` from `i` on, starting as `quoted`),
/// else the length of `s`.
pub open spec fn separator_from(s: Seq<char>, i: int, quoted: bool) -> int
    decreases s.len() - i,
{
    if i < 0 || i >= s.len() {
        s.len() as int
    } else if s[i] == '"' {
        separator_from(s, i + 1, !quoted)
    } else if s[i] == ',' && !quoted {
        i
    } else {
        separator_from(s, i + 1, quoted)
    }
}

pub proof fn lemma_separator_from(s: Seq<char>, i: int, quoted: bool)
    requires
        0 <= i,
    ensures
        i <= separator_from(s, i, quoted) <= s.len() || (i > s.len() && separator_from(s, i, quoted)
            == s.len()),
        separator_from(s, i, quoted) < s.len() ==> s[separator_from(s, i, quoted)] == ',',
    decreases s.len() - i,
{
    if i < s.len() {
        if s[i] == '"' {
            lemma_separator_from(s, i + 1, !quoted);
        } else if s[i] == ',' && !quoted {
        } else {
            lemma_separator_from(s, i + 1, quoted);
        }
    }
}

/// The attributes of a list from index `start` on: the texts between the
/// commas that are not inside quotes. A comma at the very end starts no
/// further attribute.
pub open spec fn attribute_texts(s: Seq<char>, start: int) -> Seq<Seq<char>>
    decreases s.len() - start,
{
    if start < 0 || start >= s.len() {
        Seq::empty()
    } else {
        let k = separator_from(s, start, false);
        proof {
            lemma_separator_from(s, start, false);
        }
        if k >= s.len() {
            seq![s.subrange(start, s.len() as int)]
        } else {
            seq![s.subrange(start, k)] + attribute_texts(s, k + 1)
        }
    }
}

/// An attribute's value: quoted (its text without the quotes) or not.
#[derive(Debug, Clone, PartialEq, Eq)]
pub enum AttributeValue {
    Quoted(String),
    Unquoted(String),
}

pub open spec fn value_view(v: AttributeValue) -> (bool, Seq<char>) {
    match v {
        AttributeValue::Quoted(t) => (true, t@),
        AttributeValue::Unquoted(t) => (false, t@),
    }
}

/// What one attribute text says: its name (the trimmed text before the
/// first `=`) and its trimmed value, quoted when it has at least two
/// characters and starts and ends with `"`. A text without `=` or with an
/// empty name says nothing.
pub open spec fn attribute_of(text: Seq<char>) -> Option<(Seq<char>, (bool, Seq<char>))> {
    match find_char(text, '=') {
        None => None,
        Some(e) => {
            let key = trim(text.take(e));
            let value = trim(text.skip(e + 1));
            if key.len() == 0 {
                None
            } else if value.len() >= 2 && value[0] == '"' && value.last() == '"' {
                Some((key, (true, value.subrange(1, value.len() - 1))))
            } else {
                Some((key, (false, value)))
            }
        },
    }
}

/// The first index of an entry named `key`.
pub open spec fn key_index(es: Seq<(Seq<char>, (bool, Seq<char>))>, key: Seq<char>) -> Option<int>
    decreases es.len(),
{
    if es.len() == 0 {
        None
    } else if es.last().0 == key && key_index(es.drop_last(), key) is None {
        Some(es.len() - 1)
    } else {
        key_index(es.drop_last(), key)
    }
}

/// Sets the value of `key`: in place when an entry has that name, else as
/// a new last entry.
pub open spec fn set_entry(es: Seq<(Seq<char>, (bool, Seq<char>))>, key: Seq<char>, value: (bool, Seq<char>)) -> Seq<
    (Seq<char>, (bool, Seq<char>)),
> {
    match key_index(es, key) {
        Some(j) => es.update(j, (key, value)),
        None => es.push((key, value)),
    }
}

/// The attributes of the first `n` texts, each name once, in the order
/// names first appear, with the value given last.
pub open spec fn attribute_entries(texts: Seq<Seq<char>>, n: int) -> Seq<(Seq<char>, (bool, Seq<char>))>
    decreases n,
{
    if n <= 0 {
        Seq::empty()
    } else {
        let es = attribute_entries(texts, n - 1);
        match attribute_of(texts[n - 1]) {
            Some(a) => set_entry(es, a.0, a.1),
            None => es,
        }
    }
}

/// The attributes of a `#EXT-X-DATERANGE` attribute list.
pub open spec fn date_range_entries(list: Seq<char>) -> Seq<(Seq<char>, (bool, Seq<char>))> {
    let texts = attribute_texts(list, 0);
    attribute_entries(texts, texts.len() as int)
}

pub open spec fn entries_view(es: Seq<(String, AttributeValue)>) -> Seq<(Seq<char>, (bool, Seq<char>))> {
    es.map_values(|e: (String, AttributeValue)| (e.0@, value_view(e.1)))
}

proof fn lemma_key_index(es: Seq<(Seq<char>, (bool, Seq<char>))>, key: Seq<char>)
    ensures
        key_index(es, key) matches Some(j) ==> 0 <= j < es.len() && es[j].0 == key && forall|i: int|
            0 <= i < j ==> (#[trigger] es[i]).0 != key,
        key_index(es, key) is None ==> forall|i: int| 0 <= i < es.len() ==> (#[trigger] es[i]).0 != key,
    decreases es.len(),
{
    if es.len() > 0 {
        lemma_key_index(es.drop_last(), key);
        assert forall|i: int| 0 <= i < es.len() - 1 implies es[i] == es.drop_last()[i] by {}
    }
}

proof fn lemma_key_index_at(es: Seq<(Seq<char>, (bool, Seq<char>))>, key: Seq<char>, j: int)
    requires
        0 <= j <= es.len(),
        j < es.len() ==> es[j].0 == key,
        forall|i: int| 0 <= i < j ==> (#[trigger] es[i]).0 != key,
    ensures
        key_index(es, key) == (if j < es.len() {
            Some(j)
        } else {
            None::<int>
        }),
{
    lemma_key_index(es, key);
    match key_index(es, key) {
        Some(k) => {
            if k < j {
                assert(es[k].0 != key);
            } else if k > j {
                assert(j < es.len());
                assert(es[j].0 == key);
            }
        },
        None => {
            if j < es.len() {
                assert(es[j].0 == key);
            }
        },
    }
}

fn separator_exec(s: &[char], start: usize) -> (r: usize)
    requires
        start <= s.len(),
    ensures
        r == separator_from(s@, start as int, false),
{
    let mut quoted = false;
    let mut i = start;
    while i < s.len()
        invariant
            start <= i <= s.len(),
            separator_from(s@, start as int, false) == separator_from(s@, i as int, quoted),
        decreases s.len() - i,
    {
        if s[i] == '"' {
            quoted = !quoted;
        } else if s[i] == ',' && !quoted {
            return i;
        }
        i += 1;
    }
    i
}

fn attribute_exec(text: &[char]) -> (r: Option<(String, AttributeValue)>)
    ensures
        (match r {
            Some(e) => Some((e.0@, value_view(e.1))),
            None => None,
        }) == attribute_of(text@),
{
    match find_char_exec(text, '=') {
        None => None,
        Some(e) => {
            let k = slice_chars(text, 0, e);
            assert(k@ =~= text@.take(e as int));
            let v = slice_chars(text, e + 1, text.len());
            assert(v@ =~= text@.skip(e + 1));
            let key = trim_exec(&k);
            let value = trim_exec(&v);
            if key.len() == 0 {
                None
            } else if value.len() >= 2 && value[0] == '"' && value[value.len() - 1] == '"' {
                let inner = slice_chars(&value, 1, value.len() - 1);
                Some((string_of(&key), AttributeValue::Quoted(string_of(&inner))))
            } else {
                Some((string_of(&key), AttributeValue::Unquoted(string_of(&value))))
            }
        },
    }
}

fn clone_value(v: &AttributeValue) -> (r: AttributeValue)
    ensures
        value_view(r) == value_view(*v),
{
    match v {
        AttributeValue::Quoted(t) => AttributeValue::Quoted(t.clone()),
        AttributeValue::Unquoted(t) => AttributeValue::Unquoted(t.clone()),
    }
}

fn set_entry_exec(es: &mut Vec<(String, AttributeValue)>, key: String, value: AttributeValue)
    ensures
        entries_view(final(es)@) == set_entry(entries_view(old(es)@), key@, value_view(value)),
{
    let ghost ev = entries_view(es@);
    let kc = chars_of(key.as_str());
    let mut i: usize = 0;
    while i < es.len()
        invariant
            i <= es.len(),
            es@ == old(es)@,
            ev == entries_view(es@),
            kc@ == key@,
            forall|j: int| 0 <= j < i ==> (#[trigger] ev[j]).0 != key@,
        decreases es.len() - i,
    {
        assert(ev[i as int] == (es@[i as int].0@, value_view(es@[i as int].1)));
        if crate::text::chars_eq(&chars_of(es[i].0.as_str()), &kc) {
            proof {
                lemma_key_index_at(ev, key@, i as int);
            }
            let ghost vv = value_view(value);
            es.set(i, (key, value));
            assert(entries_view(es@) =~= ev.update(i as int, (kc@, vv)));
            return;
        }
        i += 1;
    }
    proof {
        lemma_key_index_at(ev, key@, i as int);
    }
    let ghost vv = value_view(value);
    let ghost kv = key@;
    es.push((key, value));
    assert(entries_view(es@) =~= ev.push((kv, vv)));
}

/// The attributes of a `#EXT-X-DATERANGE` attribute list (see
/// `date_range_entries`): each name once, with the value it was last given.
pub fn date_range_attributes(list: &str) -> (r: Vec<(String, AttributeValue)>)
    ensures
        entries_view(r@) == date_range_entries(list@),
{
    let s = chars_of(list);
    let ghost texts = attribute_texts(list@, 0);
    let mut out: Vec<(String, AttributeValue)> = Vec::new();
    let mut start: usize = 0;
    let ghost mut n: int = 0;
    assert(entries_view(out@) =~= attribute_entries(texts, 0));
    while start < s.len()
        invariant
            s@ == list@,
            start <= s.len(),
            texts == attribute_texts(list@, 0),
            0 <= n <= texts.len(),
            texts.skip(n) == attribute_texts(list@, start as int),
            entries_view(out@) == attribute_entries(texts, n),
        decreases s.len() - start,
    {
        let k = separator_exec(&s, start);
        proof {
            lemma_separator_from(list@, start as int, false);
        }
        let piece = slice_chars(&s, start, k);
        let ghost rest = attribute_texts(list@, start as int);
        assert(rest.len() > 0 && rest[0] == piece@);
        assert(texts[n] == texts.skip(n)[0]);
        match attribute_exec(&piece) {
            Some((key, value)) => set_entry_exec(&mut out, key, value),
            None => {},
        }
        proof {
            assert(entries_view(out@) == attribute_entries(texts, n + 1));
            if k < s.len() {
                assert(texts.skip(n + 1) =~= texts.skip(n).drop_first());
                assert(rest.drop_first() =~= attribute_texts(list@, k + 1));
            } else {
                assert(texts.skip(n + 1) =~= texts.skip(n).drop_first());
                assert(rest.drop_first() =~= Seq::<Seq<char>>::empty());
            }
            n = n + 1;
        }
        if k < s.len() {
            start = k + 1;
        } else {
            start = s.len();
        }
    }
    proof {
        assert(attribute_texts(list@, start as int) =~= Seq::<Seq<char>>::empty());
        assert(n == texts.len());
    }
    out
}


// ---------------------------------------------------------------------------
// Ad ranges
// ---------------------------------------------------------------------------

/// What the ad decisions read of a `#EXT-X-DATERANGE` tag: its id and class,
/// the names of its `X-` attributes, its start, its end date and the end its
/// duration (else its planned duration) gives when that is finite and
/// positive (Unix milliseconds).
#[derive(Debug, Clone)]
pub struct DateRangeInfo {
    pub id: String,
    pub class: Option<String>,
    pub x_names: Vec<String>,
    pub start_ms: i64,
    pub end_ms: Option<i64>,
    pub duration_end_ms: Option<i64>,
}

/// Whether a date range marks a stitched Twitch ad: its id in lower case
/// starts with `stitched-ad-`, its class is `twitch-stitched-ad` in any
/// case, or one of its `X-` attributes is named `X-TV-TWITCH-AD-...`.
pub open spec fn is_ad_range(r: DateRangeInfo) -> bool {
    ||| starts_with(lower(r.id@), "stitched-ad-"@)
    ||| (r.class matches Some(c) && lower(c@) == "twitch-stitched-ad"@)
    ||| exists|i: int| 0 <= i < r.x_names@.len() && starts_with(#[trigger] r.x_names@[i]@, "X-TV-TWITCH-AD-"@)
}

pub fn is_twitch_ad_range(r: &DateRangeInfo) -> (b: bool)
    ensures
        b == is_ad_range(*r),
{
    if starts_with_str(&to_lower(&chars_of(r.id.as_str())), "stitched-ad-") {
        return true;
    }
    if let Some(c) = &r.class {
        if eq_str(&to_lower(&chars_of(c.as_str())), "twitch-stitched-ad") {
            return true;
        }
    }
    let mut i: usize = 0;
    while i < r.x_names.len()
        invariant
            i <= r.x_names.len(),
            forall|k: int| 0 <= k < i ==> !starts_with(#[trigger] r.x_names@[k]@, "X-TV-TWITCH-AD-"@),
        decreases r.x_names.len() - i,
    {
        if starts_with_str(&chars_of(r.x_names[i].as_str()), "X-TV-TWITCH-AD-") {
            return true;
        }
        i += 1;
    }
    false
}

/// The ad window a date range announces: none unless it marks an ad; it
/// ends at its end date, else where its duration ends, and must end after
/// it starts.
pub open spec fn ad_window(r: DateRangeInfo) -> Option<(Seq<char>, i64, i64)> {
    if !is_ad_range(r) {
        None
    } else {
        let end = match r.end_ms {
            Some(e) => Some(e),
            None => r.duration_end_ms,
        };
        match end {
            Some(e) => if e > r.start_ms {
                Some((r.id@, r.start_ms, e))
            } else {
                None
            },
            None => None,
        }
    }
}

pub open spec fn opt_range_view(r: Option<AdTimeRange>) -> Option<(Seq<char>, i64, i64)> {
    match r {
        Some(r) => Some(r@),
        None => None,
    }
}

pub fn twitch_ad_time_range(r: &DateRangeInfo) -> (w: Option<AdTimeRange>)
    ensures
        opt_range_view(w) == ad_window(*r),
{
    if !is_twitch_ad_range(r) {
        return None;
    }
    let end = match r.end_ms {
        Some(e) => Some(e),
        None => r.duration_end_ms,
    };
    match end {
        Some(e) => if e > r.start_ms {
            Some(AdTimeRange { id: r.id.clone(), start_ms: r.start_ms, end_ms: e })
        } else {
            None
        },
        None => None,
    }
}

/// The first window that a time falls in (start included, end excluded).
pub open spec fn window_at(rs: Seq<(Seq<char>, i64, i64)>, t: i64) -> Option<int>
    decreases rs.len(),
{
    if rs.len() == 0 {
        None
    } else {
        match window_at(rs.drop_last(), t) {
            Some(i) => Some(i),
            None => if rs.last().1 <= t && t < rs.last().2 {
                Some(rs.len() - 1)
            } else {
                None
            },
        }
    }
}

fn window_at_exec(ranges: &Vec<AdTimeRange>, t: i64) -> (r: Option<usize>)
    ensures
        (match r {
            Some(i) => Some(i as int),
            None => None,
        }) == window_at(ranges_view(ranges@), t),
        r matches Some(i) ==> i < ranges.len(),
{
    let ghost rv = ranges_view(ranges@);
    let mut i: usize = 0;
    while i < ranges.len()
        invariant
            i <= ranges.len(),
            rv == ranges_view(ranges@),
            window_at(rv.take(i as int), t) is None,
        decreases ranges.len() - i,
    {
        assert(rv.take(i + 1).drop_last() =~= rv.take(i as int));
        assert(rv.take(i + 1).last() == ranges@[i as int]@);
        if ranges[i].start_ms <= t && t < ranges[i].end_ms {
            proof {
                lemma_window_at_prefix(rv, t, i + 1);
            }
            return Some(i);
        }
        i += 1;
    }
    assert(rv.take(i as int) =~= rv);
    None
}

proof fn lemma_window_at_prefix(rs: Seq<(Seq<char>, i64, i64)>, t: i64, n: int)
    requires
        0 <= n <= rs.len(),
        window_at(rs.take(n), t) is Some,
    ensures
        window_at(rs, t) == window_at(rs.take(n), t),
    decreases rs.len() - n,
{
    if n < rs.len() {
        assert(rs.take(n + 1).drop_last() =~= rs.take(n));
        lemma_window_at_prefix(rs, t, n + 1);
    } else {
        assert(rs.take(n) =~= rs);
    }
}

/// Whether a segment is part of a stitched ad: it carries an ad date range,
/// or its program date time falls in one of the known ad windows.
pub open spec fn in_ad(range: Option<DateRangeInfo>, time: Option<i64>, rs: Seq<(Seq<char>, i64, i64)>) -> bool {
    (range matches Some(r) && is_ad_range(r)) || (time matches Some(t) && window_at(rs, t) is Some)
}

pub fn is_twitch_ad_segment(range: Option<&DateRangeInfo>, time: Option<i64>, ranges: &Vec<AdTimeRange>) -> (b:
    bool)
    ensures
        b == in_ad(
            match range {
                Some(r) => Some(*r),
                None => None,
            },
            time,
            ranges_view(ranges@),
        ),
{
    if let Some(r) = range {
        if is_twitch_ad_range(r) {
            return true;
        }
    }
    match time {
        Some(t) => window_at_exec(ranges, t).is_some(),
        None => false,
    }
}

/// The ad window a segment belongs to: the first known window its program
/// date time falls in, else the window its own date range announces.
pub open spec fn segment_window(range: Option<DateRangeInfo>, time: Option<i64>, rs: Seq<(Seq<char>, i64, i64)>) -> Option<
    (Seq<char>, i64, i64),
> {
    let known = match time {
        Some(t) => match window_at(rs, t) {
            Some(i) => Some(rs[i]),
            None => None,
        },
        None => None,
    };
    match known {
        Some(w) => Some(w),
        None => match range {
            Some(r) => ad_window(r),
            None => None,
        },
    }
}

pub fn ad_range_for_segment(range: Option<&DateRangeInfo>, time: Option<i64>, ranges: &Vec<AdTimeRange>) -> (w:
    Option<AdTimeRange>)
    ensures
        opt_range_view(w) == segment_window(
            match range {
                Some(r) => Some(*r),
                None => None,
            },
            time,
            ranges_view(ranges@),
        ),
{
    if let Some(t) = time {
        if let Some(i) = window_at_exec(ranges, t) {
            let r = &ranges[i];
            return Some(AdTimeRange { id: r.id.clone(), start_ms: r.start_ms, end_ms: r.end_ms });
        }
    }
    match range {
        Some(r) => twitch_ad_time_range(r),
        None => None,
    }
}

/// The most ad windows remembered across playlist reloads.
pub const MAX_AD_RANGES: usize = 128;

/// The windows that end after `t`, in order.
pub open spec fn ending_after(rs: Seq<(Seq<char>, i64, i64)>, t: i64) -> Seq<(Seq<char>, i64, i64)>
    decreases rs.len(),
{
    if rs.len() == 0 {
        rs
    } else if rs.last().2 > t {
        ending_after(rs.drop_last(), t).push(rs.last())
    } else {
        ending_after(rs.drop_last(), t)
    }
}

/// The windows still worth remembering for a playlist whose first program
/// date time is `first`: those that end after it, at most the last
/// `MAX_AD_RANGES` of them.
pub open spec fn pruned_windows(rs: Seq<(Seq<char>, i64, i64)>, first: Option<i64>) -> Seq<(Seq<char>, i64, i64)> {
    let kept = match first {
        Some(t) => ending_after(rs, t),
        None => rs,
    };
    if kept.len() > MAX_AD_RANGES {
        kept.skip(kept.len() - MAX_AD_RANGES)
    } else {
        kept
    }
}

/// Drops the windows that can no longer match a segment of a playlist
/// whose first program date time is `first` (see `pruned_windows`).
pub fn prune_ad_ranges(ranges: &mut Vec<AdTimeRange>, first: Option<i64>)
    ensures
        ranges_view(final(ranges)@) == pruned_windows(ranges_view(old(ranges)@), first),
{
    let ghost rv = ranges_view(ranges@);
    let mut kept: Vec<AdTimeRange> = Vec::new();
    match first {
        Some(t) => {
            let mut i: usize = 0;
            while i < ranges.len()
                invariant
                    i <= ranges.len(),
                    rv == ranges_view(ranges@),
                    ranges_view(kept@) == ending_after(rv.take(i as int), t),
                decreases ranges.len() - i,
            {
                let ghost before = rv.take(i as int);
                assert(rv.take(i + 1) =~= before.push(rv[i as int]));
                assert(rv.take(i + 1).drop_last() =~= before);
                if ranges[i].end_ms > t {
                    let r = &ranges[i];
                    kept.push(AdTimeRange { id: r.id.clone(), start_ms: r.start_ms, end_ms: r.end_ms });
                    assert(ranges_view(kept@) =~= ending_after(before, t).push(rv[i as int]));
                }
                i += 1;
            }
            assert(rv.take(i as int) =~= rv);
        },
        None => {
            let mut i: usize = 0;
            while i < ranges.len()
                invariant
                    i <= ranges.len(),
                    rv == ranges_view(ranges@),
                    ranges_view(kept@) == rv.take(i as int),
                decreases ranges.len() - i,
            {
                let r = &ranges[i];
                assert(rv[i as int] == ranges@[i as int]@);
                assert(rv.take(i + 1) =~= rv.take(i as int).push(rv[i as int]));
                let ghost before = ranges_view(kept@);
                kept.push(AdTimeRange { id: r.id.clone(), start_ms: r.start_ms, end_ms: r.end_ms });
                assert(ranges_view(kept@) =~= before.push(rv[i as int]));
                i += 1;
            }
            assert(rv.take(i as int) =~= rv);
        },
    }
    let ghost kv = ranges_view(kept@);
    let mut out: Vec<AdTimeRange> = Vec::new();
    let from: usize = if kept.len() > MAX_AD_RANGES {
        kept.len() - MAX_AD_RANGES
    } else {
        0
    };
    let mut j: usize = from;
    while j < kept.len()
        invariant
            from <= j <= kept.len(),
            kv == ranges_view(kept@),
            ranges_view(out@) == kv.subrange(from as int, j as int),
        decreases kept.len() - j,
    {
        let r = &kept[j];
        assert(kv[j as int] == kept@[j as int]@);
        assert(kv.subrange(from as int, j + 1) =~= kv.subrange(from as int, j as int).push(kv[j as int]));
        let ghost before = ranges_view(out@);
        out.push(AdTimeRange { id: r.id.clone(), start_ms: r.start_ms, end_ms: r.end_ms });
        assert(ranges_view(out@) =~= before.push(kv[j as int]));
        j += 1;
    }
    assert(kv.subrange(from as int, kept.len() as int) =~= kv.skip(from as int));
    assert(kv.skip(0) =~= kv);
    *ranges = out;
}

/// The attribute lists of the `#EXT-X-DATERANGE` tags of a playlist text,
/// line by line (a line's `\r` before its `\n` dropped).
pub open spec fn daterange_lists(text: Seq<char>) -> Seq<Seq<char>> {
    let pieces = split_on(text, '\n');
    daterange_lists_of(pieces, pieces.len() as int)
}

/// The lists among the first `n` pieces of a playlist split at `\n`.
pub open spec fn daterange_lists_of(pieces: Seq<Seq<char>>, n: int) -> Seq<Seq<char>>
    decreases n,
{
    if n <= 0 {
        Seq::empty()
    } else {
        let pre = daterange_lists_of(pieces, n - 1);
        let piece = pieces[n - 1];
        let line = if n < pieces.len() && piece.len() > 0 && piece.last() == '\r' {
            piece.drop_last()
        } else {
            piece
        };
        if starts_with(line, "#EXT-X-DATERANGE:"@) {
            pre.push(line.skip(17))
        } else {
            pre
        }
    }
}

/// The attribute lists of the date range tags in a fetched playlist,
/// decoded as UTF-8 with invalid bytes replaced (see `daterange_lists`).
pub fn playlist_daterange_lists(content: &[u8]) -> (r: Vec<String>)
    ensures
        strings_view(r@) == daterange_lists(lossy_text(content@)),
{
    let text = utf8_lossy(content);
    let pieces = split_exec(&chars_of(text.as_str()), '\n');
    let ghost pv = vecs_view(pieces@);
    assert(pv == split_on(text@, '\n'));
    let mut r: Vec<String> = Vec::new();
    let mut i: usize = 0;
    while i < pieces.len()
        invariant
            i <= pieces.len(),
            pv == vecs_view(pieces@),
            strings_view(r@) == daterange_lists_of(pv, i as int),
        decreases pieces.len() - i,
    {
        let piece = &pieces[i];
        assert(pv[i as int] == piece@);
        let line = if i + 1 < pieces.len() && piece.len() > 0 && piece[piece.len() - 1] == '\r' {
            slice_chars(piece, 0, piece.len() - 1)
        } else {
            slice_chars(piece, 0, piece.len())
        };
        assert(piece@.subrange(0, piece.len() as int) =~= piece@);
        assert(piece@.subrange(0, piece.len() - 1) =~= piece@.drop_last());
        proof {
            reveal_strlit("#EXT-X-DATERANGE:");
        }
        if starts_with_str(&line, "#EXT-X-DATERANGE:") {
            let rest = slice_chars(&line, 17, line.len());
            assert(rest@ =~= line@.skip(17));
            r.push(string_of(&rest));
            assert(strings_view(r@) =~= daterange_lists_of(pv, i as int).push(rest@));
        }
        i += 1;
    }
    r
}


/// No two entries share a name.
pub open spec fn names_distinct(es: Seq<(Seq<char>, (bool, Seq<char>))>) -> bool {
    forall|i: int, j: int| 0 <= i < j < es.len() ==> (#[trigger] es[i]).0 != (#[trigger] es[j]).0
}

proof fn set_entry_keeps_names_distinct(es: Seq<(Seq<char>, (bool, Seq<char>))>, key: Seq<char>, value: (bool, Seq<char>))
    requires
        names_distinct(es),
    ensures
        names_distinct(set_entry(es, key, value)),
{
    lemma_key_index(es, key);
    let r = set_entry(es, key, value);
    match key_index(es, key) {
        Some(j) => {
            assert forall|a: int, b: int| 0 <= a < b < r.len() implies (#[trigger] r[a]).0 != (#[trigger] r[b]).0 by {
                if a == j {
                    assert(r[b] == es[b]);
                    assert(es[j].0 != es[b].0);
                } else if b == j {
                    assert(r[a] == es[a]);
                    assert(es[a].0 != es[j].0);
                } else {
                    assert(r[a] == es[a] && r[b] == es[b]);
                }
            }
        },
        None => {
            assert forall|a: int, b: int| 0 <= a < b < r.len() implies (#[trigger] r[a]).0 != (#[trigger] r[b]).0 by {
                if b == es.len() {
                    assert(r[a] == es[a]);
                } else {
                    assert(r[a] == es[a] && r[b] == es[b]);
                }
            }
        },
    }
}

proof fn attribute_entries_names_distinct(texts: Seq<Seq<char>>, n: int)
    ensures
        names_distinct(attribute_entries(texts, n)),
    decreases n,
{
    if n > 0 {
        attribute_entries_names_distinct(texts, n - 1);
        match attribute_of(texts[n - 1]) {
            Some(a) => set_entry_keeps_names_distinct(attribute_entries(texts, n - 1), a.0, a.1),
            None => {},
        }
    }
}

/// An attribute list gives each attribute name once, however often the
/// list repeats it.
pub proof fn date_range_names_distinct(list: Seq<char>)
    ensures
        names_distinct(date_range_entries(list)),
{
    let texts = attribute_texts(list, 0);
    attribute_entries_names_distinct(texts, texts.len() as int);
}

proof fn ending_after_facts(rs: Seq<(Seq<char>, i64, i64)>, t: i64)
    ensures
        ending_after(rs, t).len() <= rs.len(),
        forall|i: int| 0 <= i < ending_after(rs, t).len() ==> (#[trigger] ending_after(rs, t)[i]).2 > t,
        forall|i: int| 0 <= i < ending_after(rs, t).len() ==> rs.contains(#[trigger] ending_after(rs, t)[i]),
        ending_after(ending_after(rs, t), t) == ending_after(rs, t),
    decreases rs.len(),
{
    if rs.len() > 0 {
        let pre = rs.drop_last();
        ending_after_facts(pre, t);
        let e = ending_after(pre, t);
        assert forall|i: int| 0 <= i < e.len() implies rs.contains(#[trigger] e[i]) by {
            let k = choose|k: int| 0 <= k < pre.len() && pre[k] == e[i];
            assert(rs[k] == pre[k]);
        }
        if rs.last().2 > t {
            let r = e.push(rs.last());
            assert(r.drop_last() =~= e);
            assert forall|i: int| 0 <= i < r.len() implies rs.contains(#[trigger] r[i]) by {
                if i == e.len() {
                    assert(rs[rs.len() - 1] == r[i]);
                } else {
                    assert(r[i] == e[i]);
                }
            }
        }
    }
}

/// After pruning, at most `MAX_AD_RANGES` windows remain, each one of the
/// windows before, each ending after the playlist's first program date
/// time; pruning again changes nothing.
pub proof fn pruned_windows_are_bounded(rs: Seq<(Seq<char>, i64, i64)>, first: Option<i64>)
    ensures
        pruned_windows(rs, first).len() <= MAX_AD_RANGES,
        forall|i: int| 0 <= i < pruned_windows(rs, first).len() ==> rs.contains(#[trigger] pruned_windows(rs, first)[i]),
        first matches Some(t) ==> forall|i: int|
            0 <= i < pruned_windows(rs, first).len() ==> (#[trigger] pruned_windows(rs, first)[i]).2 > t,
        pruned_windows(pruned_windows(rs, first), first) == pruned_windows(rs, first),
{
    let kept = match first {
        Some(t) => ending_after(rs, t),
        None => rs,
    };
    match first {
        Some(t) => {
            ending_after_facts(rs, t);
        },
        None => {},
    }
    let p = pruned_windows(rs, first);
    if kept.len() > MAX_AD_RANGES {
        let d = kept.len() - MAX_AD_RANGES;
        assert forall|i: int| 0 <= i < p.len() implies rs.contains(#[trigger] p[i]) by {
            assert(p[i] == kept[i + d]);
            match first {
                Some(t) => {},
                None => {
                    assert(rs[i + d] == p[i]);
                },
            }
        }
        match first {
            Some(t) => {
                assert forall|i: int| 0 <= i < p.len() implies (#[trigger] p[i]).2 > t by {
                    assert(p[i] == kept[i + d]);
                }
            },
            None => {},
        }
    } else {
        match first {
            Some(t) => {},
            None => {
                assert forall|i: int| 0 <= i < p.len() implies rs.contains(#[trigger] p[i]) by {
                    assert(rs[i] == p[i]);
                }
            },
        }
    }
    match first {
        Some(t) => {
            ending_after_all(p, t);
        },
        None => {},
    }
}

/// Windows that all end after `t` are kept as they are.
proof fn ending_after_all(rs: Seq<(Seq<char>, i64, i64)>, t: i64)
    requires
        forall|i: int| 0 <= i < rs.len() ==> (#[trigger] rs[i]).2 > t,
    ensures
        ending_after(rs, t) == rs,
    decreases rs.len(),
{
    if rs.len() > 0 {
        assert(rs[rs.len() - 1].2 > t);
        ending_after_all(rs.drop_last(), t);
        assert(rs.drop_last().push(rs.last()) =~= rs);
    }
}

} // verus!
