//! Recorded live events and the preview entries made of them.
use vstd::prelude::*;

use crate::json::{str_member, u64_member, Json};
use crate::outside::opt_view;
use vstd::string::StringExecFns;

verus! {

/// A recorded live event: when it happened, where, its type (`"danmu"`,
/// `"super_chat"`, ...) and its JSON payload.
#[derive(Debug)]
pub struct LiveEvent {
    pub ts: i64,
    pub platform: String,
    pub room_id: String,
    pub event_type: String,
    pub data: Json,
}

/// The event types that the preview shows.
pub open spec fn preview_type(t: Seq<char>) -> bool {
    t == "danmu"@ || t == "super_chat"@
}

/// Whether the preview shows events of type `t`.
pub fn is_preview_event_type(t: &str) -> (r: bool)
    ensures
        r == preview_type(t@),
{
    let s = String::from_str(t);
    s == String::from_str("danmu") || s == String::from_str("super_chat")
}

/// One entry of the danmaku preview.
#[derive(Debug, Clone)]
pub struct DanmuEntry {
    pub ts: i64,
    pub event_type: String,
    pub content: String,
    pub user_name: Option<String>,
    /// A super chat's price; `None` for other events.
    pub price: Option<u32>,
    /// How long a super chat stays pinned, in seconds.
    pub sc_duration: Option<u32>,
}

impl DanmuEntry {
    /// Whether the entry is plain danmaku.
    pub fn is_danmu(&self) -> (r: bool)
        ensures
            r == (self.event_type@ == "danmu"@),
    {
        self.event_type == String::from_str("danmu")
    }
}

/// The number a super chat carries under `key`, truncated to 32 bits.
pub open spec fn super_chat_number(e: LiveEvent, key: Seq<char>) -> Option<u32> {
    if e.event_type@ == "super_chat"@ {
        match u64_member(e.data, key) {
            Some(n) => Some(n as u32),
            None => None,
        }
    } else {
        None
    }
}

/// Whether an event yields a preview entry: its type is previewed and its
/// payload has a string `content`.
pub open spec fn yields_entry(e: LiveEvent) -> bool {
    preview_type(e.event_type@) && str_member(e.data, "content"@) is Some
}

/// `d` is the entry made of event `e` for a live that started at `start`.
pub open spec fn entry_of(d: DanmuEntry, e: LiveEvent, start: i64) -> bool {
    &&& d.ts == e.ts - start
    &&& d.event_type@ == e.event_type@
    &&& Some(d.content@) == str_member(e.data, "content"@)
    &&& opt_view(d.user_name) == str_member(e.data, "user_name"@)
    &&& d.price == super_chat_number(e, "price"@)
    &&& d.sc_duration == super_chat_number(e, "duration"@)
}

/// The events, in order, that yield an entry at a time not before `start`.
pub open spec fn preview_events(events: Seq<LiveEvent>, start: i64) -> Seq<LiveEvent>
    decreases events.len(),
{
    if events.len() == 0 {
        Seq::empty()
    } else {
        let pre = preview_events(events.drop_last(), start);
        let e = events.last();
        if yields_entry(e) && e.ts - start >= 0 {
            pre.push(e)
        } else {
            pre
        }
    }
}

/// Every event kept for the preview is of a previewed type, has string
/// content, and happened no earlier than the start.
pub proof fn preview_events_are_shown_after_start(events: Seq<LiveEvent>, start: i64)
    ensures
        forall|i: int|
            0 <= i < preview_events(events, start).len() ==> {
                &&& yields_entry(#[trigger] preview_events(events, start)[i])
                &&& preview_events(events, start)[i].ts - start >= 0
            },
    decreases events.len(),
{
    if events.len() > 0 {
        preview_events_are_shown_after_start(events.drop_last(), start);
    }
}

fn super_chat_number_exec(e: &LiveEvent, key: &str, is_super_chat: bool) -> (r: Option<u32>)
    requires
        is_super_chat == (e.event_type@ == "super_chat"@),
    ensures
        r == super_chat_number(*e, key@),
{
    if is_super_chat {
        match e.data.get_u64(key) {
            Some(n) => Some(n as u32),
            None => None,
        }
    } else {
        None
    }
}

/// The preview entries of `events` for a live that started at `start`: the
/// previewed events with string content, their times made relative to the
/// start, those before the start dropped; super chats keep their price and
/// pinned duration.
pub fn preview_entries(events: &Vec<LiveEvent>, start: i64) -> (r: Vec<DanmuEntry>)
    requires
        forall|i: int| 0 <= i < events.len() ==> i64::MIN <= #[trigger] events@[i].ts - start <= i64::MAX,
    ensures
        r.len() == preview_events(events@, start).len(),
        forall|i: int| 0 <= i < r.len() ==> entry_of(#[trigger] r@[i], preview_events(events@, start)[i], start),
{
    let ghost ev = events@;
    let mut r: Vec<DanmuEntry> = Vec::new();
    let mut i: usize = 0;
    assert(ev.take(0) =~= Seq::<LiveEvent>::empty());
    while i < events.len()
        invariant
            i <= events.len(),
            ev == events@,
            forall|j: int| 0 <= j < events.len() ==> i64::MIN <= #[trigger] events@[j].ts - start <= i64::MAX,
            r.len() == preview_events(ev.take(i as int), start).len(),
            forall|j: int| 0 <= j < r.len() ==> entry_of(#[trigger] r@[j], preview_events(ev.take(i as int), start)[j], start),
        decreases events.len() - i,
    {
        assert(ev.take(i + 1).drop_last() =~= ev.take(i as int));
        assert(ev.take(i + 1).last() == ev[i as int]);
        let e = &events[i];
        let ts = e.ts - start;
        let previewed = is_preview_event_type(e.event_type.as_str());
        if previewed && ts >= 0 {
            match e.data.get_str("content") {
                Some(content) => {
                    let is_super_chat = e.event_type == String::from_str("super_chat");
                    let entry = DanmuEntry {
                        ts,
                        event_type: e.event_type.clone(),
                        content,
                        user_name: e.data.get_str("user_name"),
                        price: super_chat_number_exec(e, "price", is_super_chat),
                        sc_duration: super_chat_number_exec(e, "duration", is_super_chat),
                    };
                    let ghost old_r = r@;
                    r.push(entry);
                    assert(forall|j: int| 0 <= j < old_r.len() ==> r@[j] == old_r[j]);
                },
                None => {},
            }
        }
        i += 1;
    }
    assert(ev.take(events.len() as int) =~= ev);
    r
}

} // verus!
