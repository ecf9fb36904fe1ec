//! Events that the recorder reports about live danmaku.
use vstd::prelude::*;

use crate::danmu::{is_preview_event_type, preview_type, super_chat_number, LiveEvent};
use crate::json::{str_member, u64_member};
use crate::outside::opt_view;
use crate::text::{string_of, trim, trim_str};
use vstd::string::StringExecFns;

verus! {

/// A danmaku-like event received live, as forwarded to the preview.
#[derive(Debug, Clone)]
pub struct DanmuReceived {
    pub room: String,
    pub ts: i64,
    /// The event type, one of the previewed types.
    pub event_type: String,
    pub content: String,
    pub user_name: Option<String>,
    /// A super chat's price; `None` for regular danmaku.
    pub price: Option<u32>,
    /// How long a super chat stays pinned, in seconds.
    pub sc_duration: Option<u32>,
}

/// A user name as shown: trimmed, and absent when nothing is left.
pub open spec fn shown_user_name(name: Option<Seq<char>>) -> Option<Seq<char>> {
    match name {
        Some(n) => if trim(n).len() > 0 {
            Some(trim(n))
        } else {
            None
        },
        None => None,
    }
}

pub fn optional_user_name(name: Option<&str>) -> (r: Option<String>)
    ensures
        opt_view(r) == shown_user_name(match name {
            Some(n) => Some(n@),
            None => None::<Seq<char>>,
        }),
{
    match name {
        Some(n) => {
            let t = trim_str(n);
            if t.len() > 0 {
                Some(string_of(&t))
            } else {
                None
            }
        },
        None => None,
    }
}

impl DanmuReceived {
    /// A plain danmaku message.
    pub fn danmu_received(room: String, ts: i64, content: String, user_name: Option<&str>) -> (r: Self)
        ensures
            r.room == room,
            r.ts == ts,
            r.event_type@ == "danmu"@,
            r.content == content,
            opt_view(r.user_name) == shown_user_name(match user_name {
                Some(n) => Some(n@),
                None => None::<Seq<char>>,
            }),
            r.price is None,
            r.sc_duration is None,
    {
        DanmuReceived {
            room,
            ts,
            event_type: String::from_str("danmu"),
            content,
            user_name: optional_user_name(user_name),
            price: None,
            sc_duration: None,
        }
    }

    /// The preview event for a recorded live event: `None` unless its type is
    /// previewed; the content defaults to empty; super chats keep their price
    /// and pinned duration.
    pub fn danmu_received_from_event(room: String, event: &LiveEvent) -> (r: Option<Self>)
        ensures
            r is Some <==> preview_type(event.event_type@),
            r matches Some(d) ==> {
                &&& d.room == room
                &&& d.ts == event.ts
                &&& d.event_type@ == event.event_type@
                &&& d.content@ == (match str_member(event.data, "content"@) {
                    Some(c) => c,
                    None => Seq::<char>::empty(),
                })
                &&& opt_view(d.user_name) == shown_user_name(str_member(event.data, "user_name"@))
                &&& d.price == super_chat_number(*event, "price"@)
                &&& d.sc_duration == super_chat_number(*event, "duration"@)
            },
    {
        if !is_preview_event_type(event.event_type.as_str()) {
            return None;
        }
        let is_super_chat = event.event_type == String::from_str("super_chat");
        let content = match event.data.get_str("content") {
            Some(c) => c,
            None => String::new(),
        };
        let user_name = match event.data.get_str("user_name") {
            Some(n) => optional_user_name(Some(n.as_str())),
            None => None,
        };
        let price = if is_super_chat {
            match event.data.get_u64("price") {
                Some(n) => Some(n as u32),
                None => None,
            }
        } else {
            None
        };
        let sc_duration = if is_super_chat {
            match event.data.get_u64("duration") {
                Some(n) => Some(n as u32),
                None => None,
            }
        } else {
            None
        };
        Some(
            DanmuReceived {
                room,
                ts: event.ts,
                event_type: event.event_type.clone(),
                content,
                user_name,
                price,
                sc_duration,
            },
        )
    }
}

} // verus!
