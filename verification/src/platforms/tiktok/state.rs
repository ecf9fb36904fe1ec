//! TikTok: what the page state tells of a room, its user and its streams.
use vstd::prelude::*;

use crate::json::{member, str_member, Json};
use crate::errors::RecorderError;
use crate::platforms::tiktok::api::RoomInfo;
use crate::platforms::tiktok::response::LiveRoom;
use crate::UserInfo;
use vstd::string::StringExecFns;
use crate::outside::{capture, json_first_parsed, json_parsed, opt_view, parse_first_json, parse_json, regex_capture, strings_view};
use crate::platforms::kuaishou::api::image_url;
use crate::platforms::tiktok::api::{decode_json_string, page_unescaped};
use crate::text::{
    chars_of, contains, contains_str, find_char, find_char_exec, find_chars_from, find_from, lemma_find_from,
    lower, slice_chars, starts_with, starts_with_str, string_of, to_lower,
};

verus! {

/// The first URL a value gives: a string itself; in an object, its `url`
/// string, else the first item of its `url_list`, `urlList` or `urls`
/// member (the first of these present) when that is an array starting
/// with a string; in an array, its first item when that is a string.
pub open spec fn first_url(value: Json) -> Option<Seq<char>> {
    match value {
        Json::Str(s) => Some(s@),
        Json::Object(m) => match str_member(value, "url"@) {
            Some(u) => Some(u),
            None => {
                let list = match member(m@, "url_list"@) {
                    Some(l) => Some(l),
                    None => match member(m@, "urlList"@) {
                        Some(l) => Some(l),
                        None => member(m@, "urls"@),
                    },
                };
                match list {
                    Some(l) => match l.array_items() {
                        Some(items) => if items.len() > 0 {
                            items[0].str_value()
                        } else {
                            None
                        },
                        None => None,
                    },
                    None => None,
                }
            },
        },
        Json::Array(items) => if items@.len() > 0 {
            items@[0].str_value()
        } else {
            None
        },
        _ => None,
    }
}

fn first_str(items: &Vec<Json>) -> (r: Option<String>)
    ensures
        opt_view(r) == (if items@.len() > 0 {
            items@[0].str_value()
        } else {
            None
        }),
{
    if items.len() > 0 {
        match items[0].as_str() {
            Some(s) => Some(s.clone()),
            None => None,
        }
    } else {
        None
    }
}

pub fn extract_first_url(value: &Json) -> (r: Option<String>)
    ensures
        opt_view(r) == first_url(*value),
{
    match value {
        Json::Str(s) => Some(s.clone()),
        Json::Object(_) => {
            if let Some(u) = value.get_str("url") {
                return Some(u);
            }
            let list = match value.get("url_list") {
                Some(l) => Some(l),
                None => match value.get("urlList") {
                    Some(l) => Some(l),
                    None => value.get("urls"),
                },
            };
            match list {
                Some(l) => match l.as_array() {
                    Some(items) => first_str(items),
                    None => None,
                },
                None => None,
            }
        },
        Json::Array(items) => first_str(items),
        _ => None,
    }
}

/// The normalized first URL of the first of `keys` whose member gives one.
pub open spec fn keyed_url(m: Seq<(String, Json)>, keys: Seq<Seq<char>>) -> Option<Seq<char>>
    decreases keys.len(),
{
    if keys.len() == 0 {
        None
    } else {
        match member(m, keys[0]) {
            Some(v) => match first_url(v) {
                Some(u) => Some(image_url(u)),
                None => keyed_url(m, keys.drop_first()),
            },
            None => keyed_url(m, keys.drop_first()),
        }
    }
}

/// The normalized first URL of the first member whose name, in lower
/// case, mentions a cover.
pub open spec fn cover_named_url(m: Seq<(String, Json)>) -> Option<Seq<char>>
    decreases m.len(),
{
    if m.len() == 0 {
        None
    } else if contains(lower(m[0].0@), "cover"@) && first_url(m[0].1) is Some {
        Some(image_url(first_url(m[0].1)->0))
    } else {
        cover_named_url(m.drop_first())
    }
}

/// The URL found in a value: in an object, the first of `keys` that gives
/// one, else (when `by_name`) the first member named like a cover that
/// gives one, else the first found in a member's value, in order; in an
/// array, the first found in an item.
pub open spec fn found_url(value: Json, keys: Seq<Seq<char>>, by_name: bool) -> Option<Seq<char>>
    decreases value,
{
    match value {
        Json::Object(m) => match keyed_url(m@, keys) {
            Some(u) => Some(u),
            None => match (if by_name {
                cover_named_url(m@)
            } else {
                None
            }) {
                Some(u) => Some(u),
                None => member_url(m@, keys, by_name),
            },
        },
        Json::Array(items) => item_url(items@, keys, by_name),
        _ => None,
    }
}

/// The first URL found in the members' values.
pub open spec fn member_url(m: Seq<(String, Json)>, keys: Seq<Seq<char>>, by_name: bool) -> Option<
    Seq<char>,
>
    decreases m,
{
    if m.len() == 0 {
        None
    } else {
        match found_url(m[0].1, keys, by_name) {
            Some(u) => Some(u),
            None => member_url(m.drop_first(), keys, by_name),
        }
    }
}

/// The first URL found in the items.
pub open spec fn item_url(items: Seq<Json>, keys: Seq<Seq<char>>, by_name: bool) -> Option<Seq<char>>
    decreases items,
{
    if items.len() == 0 {
        None
    } else {
        match found_url(items[0], keys, by_name) {
            Some(u) => Some(u),
            None => item_url(items.drop_first(), keys, by_name),
        }
    }
}

/// The member names that hold a room's cover, in the order they are tried.
pub open spec fn cover_keys() -> Seq<Seq<char>> {
    seq![
        "cover"@,
        "coverUrl"@,
        "cover_url"@,
        "coverImage"@,
        "coverImageUrl"@,
        "roomCover"@,
        "roomCoverUrl"@,
        "liveRoomCover"@,
        "shareCover"@,
        "shareImage"@,
    ]
}

/// The member names that hold a user's avatar, in the order they are tried.
pub open spec fn avatar_keys() -> Seq<Seq<char>> {
    seq![
        "avatarThumb"@,
        "avatar_thumb"@,
        "avatar"@,
        "avatarUrl"@,
        "avatarMedium"@,
        "avatarLarge"@,
        "headUrl"@,
        "head_url"@,
        "profileImage"@,
    ]
}

/// The cover URL found anywhere in a page state value.
pub open spec fn found_cover(value: Json) -> Option<Seq<char>> {
    found_url(value, cover_keys(), true)
}

/// The avatar URL found anywhere in a page state value.
pub open spec fn found_avatar(value: Json) -> Option<Seq<char>> {
    found_url(value, avatar_keys(), false)
}

fn keyed_url_exec(m: &Vec<(String, Json)>, keys: &[&str]) -> (r: Option<String>)
    ensures
        opt_view(r) == keyed_url(m@, keys@.map_values(|s: &str| s@)),
{
    let ghost kv = keys@.map_values(|s: &str| s@);
    let mut i: usize = 0;
    assert(kv.skip(0) =~= kv);
    while i < keys.len()
        invariant
            i <= keys.len(),
            kv == keys@.map_values(|s: &str| s@),
            keyed_url(m@, kv) == keyed_url(m@, kv.skip(i as int)),
        decreases keys.len() - i,
    {
        assert(kv.skip(i as int)[0] == keys@[i as int]@);
        assert(kv.skip(i as int).drop_first() =~= kv.skip(i + 1));
        match obj_get(m, keys[i]) {
            Some(v) => {
                if let Some(u) = extract_first_url(v) {
                    let n = crate::platforms::kuaishou::api::normalize_image_url(u.as_str());
                    return Some(n);
                }
            },
            None => {},
        }
        i += 1;
    }
    assert(kv.skip(i as int) =~= Seq::<Seq<char>>::empty());
    None
}

/// The value of the first member named `key`.
fn obj_get<'a>(m: &'a Vec<(String, Json)>, key: &str) -> (r: Option<&'a Json>)
    ensures
        r is Some <==> member(m@, key@) is Some,
        r matches Some(v) ==> member(m@, key@) == Some(*v),
{
    let ghost es = m@;
    let mut i: usize = 0;
    assert(es.skip(0) =~= es);
    while i < m.len()
        invariant
            i <= m.len(),
            es == m@,
            member(es, key@) == member(es.skip(i as int), key@),
        decreases m.len() - i,
    {
        assert(es.skip(i as int)[0] == es[i as int]);
        assert(es.skip(i as int).drop_first() =~= es.skip(i + 1));
        if crate::text::eq_str(&chars_of(m[i].0.as_str()), key) {
            return Some(&m[i].1);
        }
        i += 1;
    }
    assert(es.skip(i as int) =~= Seq::<(String, Json)>::empty());
    None
}

fn cover_named_exec(m: &Vec<(String, Json)>) -> (r: Option<String>)
    ensures
        opt_view(r) == cover_named_url(m@),
{
    let ghost es = m@;
    let mut i: usize = 0;
    assert(es.skip(0) =~= es);
    while i < m.len()
        invariant
            i <= m.len(),
            es == m@,
            cover_named_url(es) == cover_named_url(es.skip(i as int)),
        decreases m.len() - i,
    {
        assert(es.skip(i as int)[0] == es[i as int]);
        assert(es.skip(i as int).drop_first() =~= es.skip(i + 1));
        let name = to_lower(&chars_of(m[i].0.as_str()));
        if contains_str(&name, "cover") {
            if let Some(u) = extract_first_url(&m[i].1) {
                return Some(crate::platforms::kuaishou::api::normalize_image_url(u.as_str()));
            }
        }
        i += 1;
    }
    assert(es.skip(i as int) =~= Seq::<(String, Json)>::empty());
    None
}

fn find_url(value: &Json, keys: &[&str], by_name: bool) -> (r: Option<String>)
    ensures
        opt_view(r) == found_url(*value, keys@.map_values(|s: &str| s@), by_name),
    decreases value,
{
    let ghost kv = keys@.map_values(|s: &str| s@);
    match value {
        Json::Object(m) => {
            if let Some(u) = keyed_url_exec(m, keys) {
                return Some(u);
            }
            if by_name {
                if let Some(u) = cover_named_exec(m) {
                    return Some(u);
                }
            }
            let mut i: usize = 0;
            assert(m@.skip(0) =~= m@);
            while i < m.len()
                invariant
                    i <= m.len(),
                    kv == keys@.map_values(|s: &str| s@),
                    *value == Json::Object(*m),
                    found_url(*value, kv, by_name) == member_url(m@, kv, by_name),
                    member_url(m@, kv, by_name) == member_url(m@.skip(i as int), kv, by_name),
                decreases m.len() - i,
            {
                assert(m@.skip(i as int)[0] == m@[i as int]);
                assert(m@.skip(i as int).drop_first() =~= m@.skip(i + 1));
                proof {
                    assert(decreases_to!(*value => m@[i as int].1));
                }
                if let Some(u) = find_url(&m[i].1, keys, by_name) {
                    return Some(u);
                }
                i += 1;
            }
            assert(m@.skip(i as int) =~= Seq::<(String, Json)>::empty());
            None
        },
        Json::Array(items) => {
            let mut i: usize = 0;
            assert(items@.skip(0) =~= items@);
            while i < items.len()
                invariant
                    i <= items.len(),
                    kv == keys@.map_values(|s: &str| s@),
                    *value == Json::Array(*items),
                    item_url(items@, kv, by_name) == item_url(items@.skip(i as int), kv, by_name),
                decreases items.len() - i,
            {
                assert(items@.skip(i as int)[0] == items@[i as int]);
                assert(items@.skip(i as int).drop_first() =~= items@.skip(i + 1));
                proof {
                    assert(decreases_to!(*value => items@[i as int]));
                }
                if let Some(u) = find_url(&items[i], keys, by_name) {
                    return Some(u);
                }
                i += 1;
            }
            assert(items@.skip(i as int) =~= Seq::<Json>::empty());
            None
        },
        _ => None,
    }
}

/// The room cover found in a page state value (see `found_cover`).
pub fn find_cover_url(value: &Json) -> (r: Option<String>)
    ensures
        opt_view(r) == found_cover(*value),
{
    let names: Vec<&'static str> = vec![
        "cover",
        "coverUrl",
        "cover_url",
        "coverImage",
        "coverImageUrl",
        "roomCover",
        "roomCoverUrl",
        "liveRoomCover",
        "shareCover",
        "shareImage",
    ];
    assert(names@.map_values(|s: &str| s@) =~= cover_keys());
    find_url(value, names.as_slice(), true)
}

/// The user avatar found in a page state value (see `found_avatar`).
pub fn find_avatar_url(value: &Json) -> (r: Option<String>)
    ensures
        opt_view(r) == found_avatar(*value),
{
    let names: Vec<&'static str> = vec![
        "avatarThumb",
        "avatar_thumb",
        "avatar",
        "avatarUrl",
        "avatarMedium",
        "avatarLarge",
        "headUrl",
        "head_url",
        "profileImage",
    ];
    assert(names@.map_values(|s: &str| s@) =~= avatar_keys());
    find_url(value, names.as_slice(), false)
}


/// The first HLS playlist URL held in a value: a string that, unescaped
/// (or as written when it does not unescape), names an `.m3u8` playlist and
/// starts with `http`; in an object or an array, the first found in a
/// member's value or an item, in order.
pub open spec fn found_m3u8(value: Json) -> Option<Seq<char>>
    decreases value,
{
    match value {
        Json::Str(s) => {
            let d = match page_unescaped(s@) {
                Some(d) => d,
                None => s@,
            };
            if contains(d, ".m3u8"@) && starts_with(d, "http"@) {
                Some(d)
            } else {
                None
            }
        },
        Json::Object(m) => member_m3u8(m@),
        Json::Array(items) => item_m3u8(items@),
        _ => None,
    }
}

pub open spec fn member_m3u8(m: Seq<(String, Json)>) -> Option<Seq<char>>
    decreases m,
{
    if m.len() == 0 {
        None
    } else {
        match found_m3u8(m[0].1) {
            Some(u) => Some(u),
            None => member_m3u8(m.drop_first()),
        }
    }
}

pub open spec fn item_m3u8(items: Seq<Json>) -> Option<Seq<char>>
    decreases items,
{
    if items.len() == 0 {
        None
    } else {
        match found_m3u8(items[0]) {
            Some(u) => Some(u),
            None => item_m3u8(items.drop_first()),
        }
    }
}

pub fn find_m3u8_in_value(value: &Json) -> (r: Option<String>)
    ensures
        opt_view(r) == found_m3u8(*value),
    decreases value,
{
    match value {
        Json::Str(s) => {
            let d = match decode_json_string(s.as_str()) {
                Some(d) => d,
                None => s.clone(),
            };
            let dv = chars_of(d.as_str());
            if contains_str(&dv, ".m3u8") && starts_with_str(&dv, "http") {
                Some(d)
            } else {
                None
            }
        },
        Json::Object(m) => {
            let mut i: usize = 0;
            assert(m@.skip(0) =~= m@);
            while i < m.len()
                invariant
                    i <= m.len(),
                    *value == Json::Object(*m),
                    member_m3u8(m@) == member_m3u8(m@.skip(i as int)),
                decreases m.len() - i,
            {
                assert(m@.skip(i as int)[0] == m@[i as int]);
                assert(m@.skip(i as int).drop_first() =~= m@.skip(i + 1));
                proof {
                    assert(decreases_to!(*value => m@[i as int].1));
                }
                if let Some(u) = find_m3u8_in_value(&m[i].1) {
                    return Some(u);
                }
                i += 1;
            }
            assert(m@.skip(i as int) =~= Seq::<(String, Json)>::empty());
            None
        },
        Json::Array(items) => {
            let mut i: usize = 0;
            assert(items@.skip(0) =~= items@);
            while i < items.len()
                invariant
                    i <= items.len(),
                    *value == Json::Array(*items),
                    item_m3u8(items@) == item_m3u8(items@.skip(i as int)),
                decreases items.len() - i,
            {
                assert(items@.skip(i as int)[0] == items@[i as int]);
                assert(items@.skip(i as int).drop_first() =~= items@.skip(i + 1));
                proof {
                    assert(decreases_to!(*value => items@[i as int]));
                }
                if let Some(u) = find_m3u8_in_value(&items[i]) {
                    return Some(u);
                }
                i += 1;
            }
            assert(items@.skip(i as int) =~= Seq::<Json>::empty());
            None
        },
        _ => None,
    }
}

/// The text a member gives as a field: a non-empty string, or a number as
/// printed.
pub open spec fn field_text(v: Json) -> Option<Seq<char>> {
    match v {
        Json::Str(s) => if s@.len() > 0 {
            Some(s@)
        } else {
            None
        },
        _ => v.number_text(),
    }
}

/// The text of the first of `keys` whose member gives one (see
/// `field_text`); nothing for a value that is not an object.
pub open spec fn string_field(value: Json, keys: Seq<Seq<char>>) -> Option<Seq<char>>
    decreases keys.len(),
{
    if keys.len() == 0 {
        None
    } else {
        match value.lookup(keys[0]) {
            Some(v) => match field_text(v) {
                Some(t) => Some(t),
                None => string_field(value, keys.drop_first()),
            },
            None => string_field(value, keys.drop_first()),
        }
    }
}

fn field_text_exec(v: &Json) -> (r: Option<String>)
    ensures
        opt_view(r) == field_text(*v),
{
    match v {
        Json::Str(s) => if chars_of(s.as_str()).len() > 0 {
            Some(s.clone())
        } else {
            None
        },
        _ => v.number_to_string(),
    }
}

pub fn get_string_field(value: &Json, keys: &[&str]) -> (r: Option<String>)
    ensures
        opt_view(r) == string_field(*value, keys@.map_values(|s: &str| s@)),
{
    let ghost kv = keys@.map_values(|s: &str| s@);
    let mut i: usize = 0;
    assert(kv.skip(0) =~= kv);
    while i < keys.len()
        invariant
            i <= keys.len(),
            kv == keys@.map_values(|s: &str| s@),
            string_field(*value, kv) == string_field(*value, kv.skip(i as int)),
        decreases keys.len() - i,
    {
        assert(kv.skip(i as int)[0] == keys@[i as int]@);
        assert(kv.skip(i as int).drop_first() =~= kv.skip(i + 1));
        if let Some(v) = value.get(keys[i]) {
            if let Some(t) = field_text_exec(v) {
                return Some(t);
            }
        }
        i += 1;
    }
    assert(kv.skip(i as int) =~= Seq::<Seq<char>>::empty());
    None
}


/// A user as three texts: id, name and avatar.
pub open spec fn user_view(u: UserInfo) -> (Seq<char>, Seq<char>, Seq<char>) {
    (u.user_id@, u.user_name@, u.user_avatar@)
}

pub open spec fn opt_user_view(u: Option<UserInfo>) -> Option<(Seq<char>, Seq<char>, Seq<char>)> {
    match u {
        Some(u) => Some(user_view(u)),
        None => None,
    }
}

/// The text or nothing at all.
pub open spec fn or_empty(t: Option<Seq<char>>) -> Seq<char> {
    match t {
        Some(t) => t,
        None => Seq::empty(),
    }
}

/// The user that a user object describes, when its id (the first of
/// `id_keys` that gives one) is not empty: named by the first of
/// `name_keys` that gives a name, else by its id, with the avatar found in
/// it (or none).
pub open spec fn described_user(user: Json, id_keys: Seq<Seq<char>>, name_keys: Seq<Seq<char>>) -> Option<
    (Seq<char>, Seq<char>, Seq<char>),
> {
    let id = or_empty(string_field(user, id_keys));
    let name = or_empty(string_field(user, name_keys));
    if id.len() > 0 {
        Some((id, if name.len() == 0 { id } else { name }, or_empty(found_avatar(user))))
    } else {
        None
    }
}

/// The user under a candidate's `user` member, read by `secUid` and
/// `nickName`.
pub open spec fn candidate_user(c: Json) -> Option<(Seq<char>, Seq<char>, Seq<char>)> {
    match c.lookup("user"@) {
        Some(u) => described_user(u, seq!["secUid"@], seq!["nickName"@]),
        None => None,
    }
}

/// The first candidate that describes a user.
pub open spec fn candidates_user(cs: Seq<Json>) -> Option<(Seq<char>, Seq<char>, Seq<char>)>
    decreases cs.len(),
{
    if cs.len() == 0 {
        None
    } else {
        match candidate_user(cs[0]) {
            Some(u) => Some(u),
            None => candidates_user(cs.drop_first()),
        }
    }
}

/// The values where a scope of the rehydration data may hold the user: the
/// scope itself, then its members' values in order.
pub open spec fn scope_candidates(scope: Json) -> Seq<Json> {
    seq![scope] + match scope {
        Json::Object(m) => m@.map_values(|e: (String, Json)| e.1),
        _ => Seq::empty(),
    }
}

/// The user found in the first scope that has one.
pub open spec fn scoped_user(m: Seq<(String, Json)>) -> Option<(Seq<char>, Seq<char>, Seq<char>)>
    decreases m.len(),
{
    if m.len() == 0 {
        None
    } else {
        match candidates_user(scope_candidates(m[0].1)) {
            Some(u) => Some(u),
            None => scoped_user(m.drop_first()),
        }
    }
}

/// The signed-in user of a page state: the app context's user (read by
/// `uid` or `id`, and `nickname` or `uniqueId`) when it has an id, else the
/// first user found in the scopes of the rehydration data.
pub open spec fn current_user(state: Json) -> Option<(Seq<char>, Seq<char>, Seq<char>)> {
    let app = match crate::json::at(crate::json::at(state.lookup("AppContext"@), "appContext"@), "user"@) {
        Some(u) => described_user(u, seq!["uid"@, "id"@], seq!["nickname"@, "uniqueId"@]),
        None => None,
    };
    match app {
        Some(u) => Some(u),
        None => match state {
            Json::Object(m) => scoped_user(m@),
            _ => None,
        },
    }
}

fn described_user_exec(user: &Json, id_keys: &[&str], name_keys: &[&str]) -> (r: Option<UserInfo>)
    ensures
        opt_user_view(r) == described_user(
            *user,
            id_keys@.map_values(|s: &str| s@),
            name_keys@.map_values(|s: &str| s@),
        ),
{
    let id = match get_string_field(user, id_keys) {
        Some(t) => t,
        None => String::new(),
    };
    let name = match get_string_field(user, name_keys) {
        Some(t) => t,
        None => String::new(),
    };
    let avatar = match find_avatar_url(user) {
        Some(u) => u,
        None => String::new(),
    };
    if chars_of(id.as_str()).len() > 0 {
        let user_name = if chars_of(name.as_str()).len() == 0 {
            id.clone()
        } else {
            name
        };
        Some(UserInfo { user_id: id, user_name, user_avatar: avatar })
    } else {
        None
    }
}

fn candidate_user_exec(c: &Json) -> (r: Option<UserInfo>)
    ensures
        opt_user_view(r) == candidate_user(*c),
{
    match c.get("user") {
        Some(u) => {
            let ids: Vec<&'static str> = vec!["secUid"];
            let names: Vec<&'static str> = vec!["nickName"];
            assert(ids@.map_values(|s: &str| s@) =~= seq!["secUid"@]);
            assert(names@.map_values(|s: &str| s@) =~= seq!["nickName"@]);
            described_user_exec(u, ids.as_slice(), names.as_slice())
        },
        None => None,
    }
}

fn scope_user_exec(scope: &Json) -> (r: Option<UserInfo>)
    ensures
        opt_user_view(r) == candidates_user(scope_candidates(*scope)),
{
    let ghost cs = scope_candidates(*scope);
    assert(cs[0] == *scope);
    if let Some(u) = candidate_user_exec(scope) {
        return Some(u);
    }
    match scope {
        Json::Object(m) => {
            let ghost inner = m@.map_values(|e: (String, Json)| e.1);
            assert(cs.drop_first() =~= inner);
            let mut i: usize = 0;
            assert(inner.skip(0) =~= inner);
            while i < m.len()
                invariant
                    i <= m.len(),
                    inner == m@.map_values(|e: (String, Json)| e.1),
                    cs == scope_candidates(*scope),
                    candidates_user(cs) == candidates_user(inner),
                    candidates_user(inner) == candidates_user(inner.skip(i as int)),
                decreases m.len() - i,
            {
                assert(inner.skip(i as int)[0] == m@[i as int].1);
                assert(inner.skip(i as int).drop_first() =~= inner.skip(i + 1));
                if let Some(u) = candidate_user_exec(&m[i].1) {
                    return Some(u);
                }
                i += 1;
            }
            assert(inner.skip(i as int) =~= Seq::<Json>::empty());
            assert(candidates_user(Seq::<Json>::empty()) is None);
            None
        },
        _ => {
            assert(cs.drop_first() =~= Seq::<Json>::empty());
            assert(candidates_user(Seq::<Json>::empty()) is None);
            assert(candidates_user(cs) == candidates_user(cs.drop_first()));
            None
        },
    }
}

/// The signed-in user of a page state (see `current_user`).
pub fn find_current_user_info(state: &Json) -> (r: Option<UserInfo>)
    ensures
        opt_user_view(r) == current_user(*state),
{
    let user = crate::json::get_at(crate::json::get_at(state.get("AppContext"), "appContext"), "user");
    if let Some(u) = user {
        let ids: Vec<&'static str> = vec!["uid", "id"];
        let names: Vec<&'static str> = vec!["nickname", "uniqueId"];
        assert(ids@.map_values(|s: &str| s@) =~= seq!["uid"@, "id"@]);
        assert(names@.map_values(|s: &str| s@) =~= seq!["nickname"@, "uniqueId"@]);
        if let Some(found) = described_user_exec(u, ids.as_slice(), names.as_slice()) {
            return Some(found);
        }
    }
    match state {
        Json::Object(m) => {
            assert(current_user(*state) == scoped_user(m@));
            let mut i: usize = 0;
            assert(m@.skip(0) =~= m@);
            while i < m.len()
                invariant
                    i <= m.len(),
                    current_user(*state) == scoped_user(m@),
                    scoped_user(m@) == scoped_user(m@.skip(i as int)),
                decreases m.len() - i,
            {
                assert(m@.skip(i as int)[0] == m@[i as int]);
                assert(m@.skip(i as int).drop_first() =~= m@.skip(i + 1));
                if let Some(u) = scope_user_exec(&m[i].1) {
                    return Some(u);
                }
                i += 1;
            }
            assert(m@.skip(i as int) =~= Seq::<(String, Json)>::empty());
            None
        },
        _ => None,
    }
}


/// The user the page's user module lists first, read by `id` or `secUid`
/// and `nickname` or `uniqueId`, when both are given.
pub open spec fn module_user(state: Json) -> Option<(Seq<char>, Seq<char>, Seq<char>)> {
    match crate::json::at(state.lookup("UserModule"@), "users"@) {
        Some(Json::Object(m)) => if m@.len() > 0 {
            let v = m@[0].1;
            let id = or_empty(string_field(v, seq!["id"@, "secUid"@]));
            let name = or_empty(string_field(v, seq!["nickname"@, "uniqueId"@]));
            if id.len() > 0 && name.len() > 0 {
                Some((id, name, or_empty(found_avatar(v))))
            } else {
                None
            }
        } else {
            None
        },
        _ => None,
    }
}

/// The signed-in user of a page state: the current user (see
/// `current_user`), else the user module's first user; an error when
/// neither is there.
pub fn user_info_from_state(state: &Json) -> (r: Result<UserInfo, RecorderError>)
    ensures
        r is Ok <==> (current_user(*state) is Some || module_user(*state) is Some),
        r matches Ok(u) ==> Some(user_view(u)) == (match current_user(*state) {
            Some(c) => Some(c),
            None => module_user(*state),
        }),
        r matches Err(e) ==> e matches RecorderError::ApiError { error } && error@
            == "Could not find user info in TikTok page"@,
{
    if let Some(u) = find_current_user_info(state) {
        return Ok(u);
    }
    match crate::json::get_at(state.get("UserModule"), "users") {
        Some(users) => match users {
            Json::Object(m) => if m.len() > 0 {
                let v = &m[0].1;
                let ids: Vec<&'static str> = vec!["id", "secUid"];
                let names: Vec<&'static str> = vec!["nickname", "uniqueId"];
                assert(ids@.map_values(|s: &str| s@) =~= seq!["id"@, "secUid"@]);
                assert(names@.map_values(|s: &str| s@) =~= seq!["nickname"@, "uniqueId"@]);
                let id = match get_string_field(v, ids.as_slice()) {
                    Some(t) => t,
                    None => String::new(),
                };
                let name = match get_string_field(v, names.as_slice()) {
                    Some(t) => t,
                    None => String::new(),
                };
                let avatar = match find_avatar_url(v) {
                    Some(u) => u,
                    None => String::new(),
                };
                if chars_of(id.as_str()).len() > 0 && chars_of(name.as_str()).len() > 0 {
                    return Ok(UserInfo { user_id: id, user_name: name, user_avatar: avatar });
                }
            },
            _ => {},
        },
        None => {},
    }
    Err(RecorderError::ApiError { error: String::from_str("Could not find user info in TikTok page") })
}

/// A room as plain values: live, title, cover, user id, user name, avatar.
pub open spec fn room_view(r: RoomInfo) -> (bool, Seq<char>, Seq<char>, Seq<char>, Seq<char>, Seq<char>) {
    (r.live_status, r.room_title@, r.room_cover_url@, r.user_id@, r.user_name@, r.user_avatar@)
}

/// The room a page state describes. Without a live room: not live, titled
/// and named "TikTok Live Not Started", with nothing else. With one: live,
/// with its title and its user's id and nickname; the avatar is the user's
/// thumbnail, else the avatar found in the state, else empty; the cover is
/// the cover found in the state when that is not empty, else the avatar.
pub open spec fn state_room(live_room: Option<LiveRoom>, state: Json) -> (
    bool,
    Seq<char>,
    Seq<char>,
    Seq<char>,
    Seq<char>,
    Seq<char>,
) {
    match live_room {
        None => (
            false,
            "TikTok Live Not Started"@,
            Seq::empty(),
            Seq::empty(),
            "TikTok Live Not Started"@,
            Seq::empty(),
        ),
        Some(lr) => {
            let u = lr.live_room_user_info.user;
            let avatar = if u.avatar_thumb@.len() == 0 {
                match found_avatar(state) {
                    Some(f) => f,
                    None => u.avatar_thumb@,
                }
            } else {
                u.avatar_thumb@
            };
            let found = or_empty(found_cover(state));
            let cover = if found.len() == 0 {
                avatar
            } else {
                found
            };
            (true, lr.live_room_user_info.live_room.title@, cover, u.id@, u.nickname@, avatar)
        },
    }
}

/// The room a page state describes (see `state_room`); `live_room` is the
/// state's live room where the page state reads as a whole.
pub fn room_info_from_state(live_room: Option<&LiveRoom>, state: &Json) -> (r: RoomInfo)
    ensures
        room_view(r) == state_room(
            match live_room {
                Some(l) => Some(*l),
                None => None,
            },
            *state,
        ),
{
    match live_room {
        None => RoomInfo {
            live_status: false,
            room_title: String::from_str("TikTok Live Not Started"),
            room_cover_url: String::new(),
            user_id: String::new(),
            user_name: String::from_str("TikTok Live Not Started"),
            user_avatar: String::new(),
        },
        Some(lr) => {
            let u = &lr.live_room_user_info.user;
            let mut avatar = u.avatar_thumb.clone();
            if chars_of(avatar.as_str()).len() == 0 {
                if let Some(found) = find_avatar_url(state) {
                    avatar = found;
                }
            }
            let mut cover = match find_cover_url(state) {
                Some(c) => c,
                None => String::new(),
            };
            if chars_of(cover.as_str()).len() == 0 {
                cover = avatar.clone();
            }
            RoomInfo {
                live_status: true,
                room_title: lr.live_room_user_info.live_room.title.clone(),
                room_cover_url: cover,
                user_id: u.id.clone(),
                user_name: u.nickname.clone(),
                user_avatar: avatar,
            }
        },
    }
}

/// Whether an object has a member of one of these names.
pub open spec fn has_any(m: Json, names: Seq<Seq<char>>) -> bool {
    exists|i: int| 0 <= i < names.len() && (#[trigger] m.lookup(names[i])) is Some
}

fn has_any_exec(m: &Json, names: &[&str]) -> (r: bool)
    ensures
        r == has_any(*m, names@.map_values(|s: &str| s@)),
{
    let ghost nv = names@.map_values(|s: &str| s@);
    let mut i: usize = 0;
    while i < names.len()
        invariant
            i <= names.len(),
            nv == names@.map_values(|s: &str| s@),
            forall|k: int| 0 <= k < i ==> (#[trigger] m.lookup(nv[k])) is None,
        decreases names.len() - i,
    {
        assert(nv[i as int] == names@[i as int]@);
        if m.get(names[i]).is_some() {
            assert(m.lookup(nv[i as int]) is Some);
            return true;
        }
        i += 1;
    }
    false
}

/// Whether an object looks like a room of the page state: it has a status,
/// an owner or stream URLs, and a title or room id.
pub open spec fn room_like(m: Json) -> bool {
    &&& has_any(m, seq!["status"@, "liveStatus"@, "live_status"@])
    &&& (has_any(m, seq!["owner"@, "ownerInfo"@, "user"@, "userInfo"@, "host"@, "author"@])
        || has_any(m, seq!["streamUrl"@, "stream_url"@, "streamUrlInfo"@, "stream_url_info"@]))
    &&& has_any(m, seq!["title"@, "roomId"@, "room_id"@, "liveRoomId"@, "live_room_id"@])
}

pub fn looks_like_room_info(m: &Json) -> (r: bool)
    ensures
        r == room_like(*m),
{
    let status: Vec<&'static str> = vec!["status", "liveStatus", "live_status"];
    assert(status@.map_values(|s: &str| s@) =~= seq!["status"@, "liveStatus"@, "live_status"@]);
    if !has_any_exec(m, status.as_slice()) {
        return false;
    }
    let owner: Vec<&'static str> = vec!["owner", "ownerInfo", "user", "userInfo", "host", "author"];
    assert(owner@.map_values(|s: &str| s@) =~= seq!["owner"@, "ownerInfo"@, "user"@, "userInfo"@, "host"@, "author"@]);
    let stream: Vec<&'static str> = vec!["streamUrl", "stream_url", "streamUrlInfo", "stream_url_info"];
    assert(stream@.map_values(|s: &str| s@) =~= seq!["streamUrl"@, "stream_url"@, "streamUrlInfo"@, "stream_url_info"@]);
    let title: Vec<&'static str> = vec!["title", "roomId", "room_id", "liveRoomId", "live_room_id"];
    assert(title@.map_values(|s: &str| s@) =~= seq!["title"@, "roomId"@, "room_id"@, "liveRoomId"@, "live_room_id"@]);
    let has_owner = has_any_exec(m, owner.as_slice());
    let has_stream = has_any_exec(m, stream.as_slice());
    let has_title = has_any_exec(m, title.as_slice());
    (has_owner || has_stream) && has_title
}

/// The member names that mark an object as pull URLs.
pub open spec fn stream_url_keys() -> Seq<Seq<char>> {
    seq![
        "hlsPullUrl"@,
        "hls_pull_url"@,
        "hlsPlayUrl"@,
        "rtmpPullUrl"@,
        "rtmp_pull_url"@,
        "rtmpPlayUrl"@,
        "flvPullUrl"@,
    ]
}

pub fn looks_like_stream_url(m: &Json) -> (r: bool)
    ensures
        r == has_any(*m, stream_url_keys()),
{
    let keys: Vec<&'static str> = vec![
        "hlsPullUrl",
        "hls_pull_url",
        "hlsPlayUrl",
        "rtmpPullUrl",
        "rtmp_pull_url",
        "rtmpPlayUrl",
        "flvPullUrl",
    ];
    assert(keys@.map_values(|s: &str| s@) =~= stream_url_keys());
    has_any_exec(m, keys.as_slice())
}

/// The stream data text of a live room's user info:
/// `liveRoom.streamData.pull_data.stream_data`, when a string.
pub open spec fn stream_data_text(info: Json) -> Option<Seq<char>> {
    match crate::json::at(
        crate::json::at(info.lookup("liveRoom"@), "streamData"@),
        "pull_data"@,
    ) {
        Some(p) => str_member(p, "stream_data"@),
        None => None,
    }
}

pub fn get_stream_data_text(info: &Json) -> (r: Option<String>)
    ensures
        opt_view(r) == stream_data_text(*info),
{
    match crate::json::get_at(crate::json::get_at(info.get("liveRoom"), "streamData"), "pull_data") {
        Some(p) => p.get_str("stream_data"),
        None => None,
    }
}


/// What to do with a fetched TikTok page.
#[derive(Debug)]
pub enum PageStep {
    /// Read the page state.
    Read,
    /// Wait a second and fetch the page again.
    Retry,
    /// Give up with this error.
    Fail(RecorderError),
}

/// The notice TikTok serves where it does not operate.
pub const REGION_NOTICE: &'static str = "We regret to inform you that we have discontinued operating TikTok";

/// The marker of a page that was cut short.
pub const TRUNCATED_MARKER: &'static str = "UNEXPECTED_EOF_WHILE_READING";

pub open spec fn region_message() -> Seq<char> {
    "TikTok is not available in this region. Please use a different proxy."@
}

pub open spec fn state_missing_message(for_room: bool, html: Seq<char>) -> Seq<char> {
    if for_room {
        "Please check if your network can access TikTok normally. Failed to extract page state JSON.\n\nHTML: "@
            + html
    } else {
        "Failed to extract page state JSON"@
    }
}

/// Whether the step is a failure with this API error message.
pub open spec fn fails_with(r: PageStep, message: Seq<char>) -> bool {
    r matches PageStep::Fail(RecorderError::ApiError { error }) && error@ == message
}

/// The step for the `attempt`-th fetch (from zero; three are made) of a
/// room page (`for_room`) or a stream page: a room page with the region
/// notice fails; a page cut short, or one whose state was not found
/// (`state_found`), is fetched again unless this was the third attempt,
/// when it fails; any other page is read.
pub fn page_step(html: &str, attempt: u32, state_found: bool, for_room: bool) -> (r: PageStep)
    ensures
        for_room && contains(html@, REGION_NOTICE@) ==> fails_with(r, region_message()),
        !(for_room && contains(html@, REGION_NOTICE@)) && contains(html@, TRUNCATED_MARKER@) ==> (if attempt
            < 2 {
            r is Retry
        } else {
            fails_with(r, "Failed to load page after 3 attempts"@)
        }),
        !(for_room && contains(html@, REGION_NOTICE@)) && !contains(html@, TRUNCATED_MARKER@)
            && !state_found ==> (if attempt < 2 {
            r is Retry
        } else {
            fails_with(r, state_missing_message(for_room, html@))
        }),
        !(for_room && contains(html@, REGION_NOTICE@)) && !contains(html@, TRUNCATED_MARKER@)
            && state_found ==> r is Read,
{
    let page = chars_of(html);
    if for_room && contains_str(&page, REGION_NOTICE) {
        return PageStep::Fail(
            RecorderError::ApiError {
                error: String::from_str("TikTok is not available in this region. Please use a different proxy."),
            },
        );
    }
    if contains_str(&page, TRUNCATED_MARKER) {
        if attempt < 2 {
            return PageStep::Retry;
        }
        return PageStep::Fail(
            RecorderError::ApiError { error: String::from_str("Failed to load page after 3 attempts") },
        );
    }
    if !state_found {
        if attempt < 2 {
            return PageStep::Retry;
        }
        let error = if for_room {
            let mut m = chars_of(
                "Please check if your network can access TikTok normally. Failed to extract page state JSON.\n\nHTML: ",
            );
            crate::text::append_str(&mut m, html);
            crate::text::string_of(&m)
        } else {
            String::from_str("Failed to extract page state JSON")
        };
        return PageStep::Fail(RecorderError::ApiError { error });
    }
    PageStep::Read
}

/// Whether the result is an API error with this message.
pub open spec fn api_error_is<T>(r: Result<T, RecorderError>, message: Seq<char>) -> bool {
    r matches Err(RecorderError::ApiError { error }) && error@ == message
}

/// What `user_page_result` gives for a home page and its parsed state.
pub open spec fn user_page_outcome(html: Seq<char>, state: Option<Json>, r: Result<UserInfo, RecorderError>) -> bool {
    &&& contains(html, REGION_NOTICE@) ==> api_error_is(r, region_message())
    &&& !contains(html, REGION_NOTICE@) && state is None ==> api_error_is(
        r,
        "Failed to extract TikTok state - please check if your network can access TikTok normally (proxy might be needed)."@,
    )
    &&& !contains(html, REGION_NOTICE@) && state is Some ==> (match state {
        Some(v) => (match (r, current_user(v), module_user(v)) {
            (Ok(u), Some(c), _) => user_view(u) == c,
            (Ok(u), None, Some(m)) => user_view(u) == m,
            (Err(e), None, None) => e matches RecorderError::ApiError { error } && error@
                == "Could not find user info in TikTok page"@,
            _ => false,
        }),
        None => true,
    })
}

/// The signed-in user a TikTok home page gives: an error for the region
/// notice, or when the page state (`state`) was not found; else see
/// `user_info_from_state`.
pub fn user_page_result(html: &str, state: Option<&Json>) -> (r: Result<UserInfo, RecorderError>)
    ensures
        user_page_outcome(html@, match state {
            Some(v) => Some(*v),
            None => None::<Json>,
        }, r),
{
    if contains_str(&chars_of(html), REGION_NOTICE) {
        return Err(
            RecorderError::ApiError {
                error: String::from_str("TikTok is not available in this region. Please use a different proxy."),
            },
        );
    }
    match state {
        Some(v) => user_info_from_state(v),
        None => Err(
            RecorderError::ApiError {
                error: String::from_str(
                    "Failed to extract TikTok state - please check if your network can access TikTok normally (proxy might be needed).",
                ),
            },
        ),
    }
}


// ---------------------------------------------------------------------------
// Where the page state is written
// ---------------------------------------------------------------------------

/// A text from its first `{`, or (when it has none) from its first `[`.
pub open spec fn from_first_bracket(raw: Seq<char>) -> Option<Seq<char>> {
    match find_char(raw, '{') {
        Some(i) => Some(raw.skip(i)),
        None => match find_char(raw, '[') {
            Some(i) => Some(raw.skip(i)),
            None => None,
        },
    }
}

fn from_first_bracket_exec(raw: &[char]) -> (r: Option<Vec<char>>)
    ensures
        (match r {
            Some(v) => Some(v@),
            None => None,
        }) == from_first_bracket(raw@),
{
    let at = match find_char_exec(raw, '{') {
        Some(i) => Some(i),
        None => find_char_exec(raw, '['),
    };
    match at {
        Some(i) => {
            let t = slice_chars(raw, i, raw.len());
            assert(t@ =~= raw@.skip(i as int));
            Some(t)
        },
        None => None,
    }
}

/// A text from its first bracket (see `from_first_bracket`): where a JSON
/// value written inside a string starts.
pub fn first_bracket_text(raw: &str) -> (r: Option<String>)
    ensures
        opt_view(r) == from_first_bracket(raw@),
{
    match from_first_bracket_exec(&chars_of(raw)) {
        Some(t) => Some(string_of(&t)),
        None => None,
    }
}

/// The pattern of the script element with this id, capturing its content.
pub open spec fn script_pattern(script_id: Seq<char>) -> Seq<char> {
    "(?s)<script[^>]*id=['\"]"@ + script_id + "['\"][^>]*>(.*?)</script>"@
}

/// The texts, from their first bracket, written after the occurrences of
/// `marker` in `html` from index `from` on (found left to right without
/// overlap), in order.
pub open spec fn marker_texts(html: Seq<char>, marker: Seq<char>, from: int) -> Seq<Seq<char>>
    decreases html.len() + 1 - from,
{
    if marker.len() == 0 || from < 0 {
        Seq::empty()
    } else {
        match find_from(html, marker, from) {
            None => Seq::empty(),
            Some(k) => {
                proof {
                    lemma_find_from(html, marker, from);
                }
                let tail = marker_texts(html, marker, k + marker.len());
                match from_first_bracket(html.skip(k + marker.len())) {
                    Some(t) => seq![t] + tail,
                    None => tail,
                }
            },
        }
    }
}

/// The texts that may start with the page state of this script id, in the
/// order they are tried: the content of the script element with that id,
/// then what follows each occurrence of the id; each from its first
/// bracket. The state is the first JSON value that one of them starts with.
pub open spec fn state_texts(script_id: Seq<char>, html: Seq<char>) -> Seq<Seq<char>> {
    (match regex_capture(script_pattern(script_id), html, 1) {
        Some(j) => match from_first_bracket(j) {
            Some(t) => seq![t],
            None => Seq::empty(),
        },
        None => Seq::empty(),
    }) + marker_texts(html, script_id, 0)
}

fn state_texts_exec(script_id: &str, html: &str) -> (r: Vec<String>)
    requires
        script_id@.len() > 0,
    ensures
        strings_view(r@) == state_texts(script_id@, html@),
{
    let mut pat = chars_of("(?s)<script[^>]*id=['\"]");
    crate::text::append_str(&mut pat, script_id);
    crate::text::append_str(&mut pat, "['\"][^>]*>(.*?)</script>");
    assert(pat@ =~= script_pattern(script_id@));
    let mut r: Vec<String> = Vec::new();
    match capture(string_of(&pat).as_str(), html, 1) {
        Some(j) => match from_first_bracket_exec(&chars_of(j.as_str())) {
            Some(t) => r.push(string_of(&t)),
            None => {},
        },
        None => {},
    }
    let ghost head = strings_view(r@);
    assert(head == (match regex_capture(script_pattern(script_id@), html@, 1) {
        Some(j) => match from_first_bracket(j) {
            Some(t) => seq![t],
            None => Seq::<Seq<char>>::empty(),
        },
        None => Seq::<Seq<char>>::empty(),
    }));
    let h = chars_of(html);
    let m = chars_of(script_id);
    let mut from: usize = 0;
    while from <= h.len()
        invariant
            m@ == script_id@,
            h@ == html@,
            m.len() > 0,
            head + marker_texts(html@, script_id@, 0) == strings_view(r@) + marker_texts(
                html@,
                script_id@,
                from as int,
            ),
        ensures
            marker_texts(html@, script_id@, from as int) =~= Seq::<Seq<char>>::empty(),
        decreases h.len() + 1 - from,
    {
        match find_chars_from(&h, &m, from) {
            None => {
                assert(marker_texts(html@, script_id@, from as int) =~= Seq::<Seq<char>>::empty());
                break;
            },
            Some(k) => {
                proof {
                    lemma_find_from(html@, script_id@, from as int);
                }
                let rest = slice_chars(&h, k + m.len(), h.len());
                assert(rest@ =~= html@.skip(k + m.len()));
                let ghost old_r = strings_view(r@);
                match from_first_bracket_exec(&rest) {
                    Some(t) => {
                        r.push(string_of(&t));
                        assert(strings_view(r@) =~= old_r.push(t@));
                        assert(old_r + marker_texts(html@, script_id@, from as int) =~= old_r.push(t@)
                            + marker_texts(html@, script_id@, (k + m.len()) as int));
                    },
                    None => {},
                }
                from = k + m.len();
            },
        }
    }
    assert(strings_view(r@) + Seq::<Seq<char>>::empty() =~= strings_view(r@));
    r
}

/// The texts that may hold a live page's state (see `state_texts`).
pub fn sigi_state_texts(html: &str) -> (r: Vec<String>)
    ensures
        strings_view(r@) == state_texts("SIGI_STATE"@, html@),
{
    proof {
        reveal_strlit("SIGI_STATE");
    }
    state_texts_exec("SIGI_STATE", html)
}

/// The texts that may hold a home page's rehydration data (see
/// `state_texts`).
pub fn rehydration_texts(html: &str) -> (r: Vec<String>)
    ensures
        strings_view(r@) == state_texts("__UNIVERSAL_DATA_FOR_REHYDRATION__"@, html@),
{
    proof {
        reveal_strlit("__UNIVERSAL_DATA_FOR_REHYDRATION__");
    }
    state_texts_exec("__UNIVERSAL_DATA_FOR_REHYDRATION__", html)
}


/// The document a raw `stream_data` text holds: the text parsed as JSON,
/// else the text read as the contents of a JSON string and that parsed.
pub open spec fn stream_data_document(raw: Seq<char>) -> Option<Json> {
    match json_parsed(raw) {
        Ok(v) => Some(v),
        Err(_) => match page_unescaped(raw) {
            Some(d) => match json_parsed(d) {
                Ok(v) => Some(v),
                Err(_) => None,
            },
            None => None,
        },
    }
}

/// The stream data document of a live room's user info: its `stream_data`
/// text (see `stream_data_text`) read as `stream_data_document` says.
pub fn live_stream_data(info: &Json) -> (r: Option<Json>)
    ensures
        r == match stream_data_text(*info) {
            Some(raw) => stream_data_document(raw),
            None => None,
        },
{
    let raw = match get_stream_data_text(info) {
        Some(t) => t,
        None => return None,
    };
    match parse_json(raw.as_str()) {
        Ok(v) => Some(v),
        Err(_) => match decode_json_string(raw.as_str()) {
            Some(d) => match parse_json(d.as_str()) {
                Ok(v) => Some(v),
                Err(_) => None,
            },
            None => None,
        },
    }
}


/// The first of `texts` that starts with a JSON value, as that value.
pub open spec fn first_document(texts: Seq<Seq<char>>) -> Option<Json>
    decreases texts.len(),
{
    if texts.len() == 0 {
        None
    } else {
        match json_first_parsed(texts[0]) {
            Some(v) => Some(v),
            None => first_document(texts.drop_first()),
        }
    }
}

fn first_document_of(texts: &Vec<String>) -> (r: Option<Json>)
    ensures
        r == first_document(strings_view(texts@)),
{
    let ghost tv = strings_view(texts@);
    let mut i: usize = 0;
    assert(tv.skip(0) =~= tv);
    while i < texts.len()
        invariant
            i <= texts.len(),
            tv == strings_view(texts@),
            first_document(tv) == first_document(tv.skip(i as int)),
        decreases texts.len() - i,
    {
        assert(tv.skip(i as int)[0] == texts@[i as int]@);
        assert(tv.skip(i as int).drop_first() =~= tv.skip(i + 1));
        match parse_first_json(texts[i].as_str()) {
            Some(v) => return Some(v),
            None => {},
        }
        i += 1;
    }
    assert(tv.skip(i as int) =~= Seq::<Seq<char>>::empty());
    None
}

/// The state of a live page: the first `SIGI_STATE` script that starts
/// with a JSON value, as that value.
pub fn sigi_state(html: &str) -> (r: Option<Json>)
    ensures
        r == first_document(state_texts("SIGI_STATE"@, html@)),
{
    first_document_of(&sigi_state_texts(html))
}

/// The rehydration data of a home page: the first rehydration script that
/// starts with a JSON value, as that value.
pub fn rehydration_state(html: &str) -> (r: Option<Json>)
    ensures
        r == first_document(state_texts("__UNIVERSAL_DATA_FOR_REHYDRATION__"@, html@)),
{
    first_document_of(&rehydration_texts(html))
}

/// The signed-in user a fetched home page shows (see `user_page_result`),
/// read from its rehydration data.
pub fn user_info_from_page(html: &str) -> (r: Result<UserInfo, RecorderError>)
    ensures
        user_page_outcome(html@, first_document(state_texts("__UNIVERSAL_DATA_FOR_REHYDRATION__"@, html@)), r),
{
    let state = rehydration_state(html);
    user_page_result(html, state.as_ref())
}

} // verus!
